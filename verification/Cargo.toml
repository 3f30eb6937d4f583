[package]
name = "apocalypse"
version = "0.1.0"
edition = "2021"
publish = false

[dependencies]
chrono = { version = "=0.4.45", features = ["serde"] }
tokio = { version = "=1.53.2", features = ["rt", "sync", "time", "macros"] }
async-trait = "=0.1.92"
futures = "=0.3.34"
serde = { version = "=1.0.229", features = ["derive"] }
