//! An in-process actor runtime core: a broker that creates, addresses,
//! messages and tears down independently scheduled units of state
//! ("demons") that communicate by asynchronous request/reply message
//! passing.
//!
//! This crate holds the verified heart of the runtime: the broker state
//! ([`Hell`]), the per-actor task state, the replica-pool task state and the
//! instruction vocabulary that a client handle produces. Every registry
//! mutation, routing decision, queueing decision and shutdown decision is an
//! ordinary function here with a proved contract. The asynchronous shell
//! that owns the channels and tasks lives outside this crate and drives
//! these state machines one event at a time.

pub use crate::demon::Demon;
pub use crate::demon::Location;
pub use crate::demon::dispatch;
pub use crate::error::Error;
pub use crate::gate::create_address_instruction;
pub use crate::gate::extinguish_instruction;
pub use crate::gate::message_instruction;
pub use crate::gate::register_demon_instruction;
pub use crate::gate::stats_instruction;
pub use crate::gate::vanquish_and_ignore_instruction;
pub use crate::gate::vanquish_and_ignore_with_timeout_instruction;
pub use crate::gate::vanquish_instruction;
pub use crate::gate::vanquish_with_timeout_instruction;
pub use crate::hell::add_zombie_spec;
pub use crate::hell::closing_plan_spec;
pub use crate::hell::commit_address_spec;
pub use crate::hell::extinguish_spec;
pub use crate::hell::in_flight;
pub use crate::hell::init_view;
pub use crate::hell::lemma_fresh_address_unregistered;
pub use crate::hell::lemma_graceful_vanquish_before_confirm;
pub use crate::hell::lemma_handled_prefix_of_accepted;
pub use crate::hell::lemma_issued_addresses_distinct;
pub use crate::hell::lemma_killswitch_skips_vanquish;
pub use crate::hell::lemma_no_waiting_with_idle_replica;
pub use crate::hell::lemma_route_after_remove;
pub use crate::hell::record_outcome_spec;
pub use crate::hell::register_spec;
pub use crate::hell::removal_reply;
pub use crate::hell::remove_spec;
pub use crate::hell::zombie_done_spec;
pub use crate::hell::ClosingStep;
pub use crate::hell::Dispatch;
pub use crate::hell::Hell;
pub use crate::hell::HellBuilder;
pub use crate::hell::HellInstruction;
pub use crate::hell::HellStats;
pub use crate::hell::HellView;
pub use crate::hell::MiniHell;
pub use crate::hell::MiniPhase;
pub use crate::hell::MiniView;
pub use crate::hell::MultipleMiniHell;
pub use crate::hell::PoolPhase;
pub use crate::hell::PoolView;

mod demon;
mod error;
mod gate;
mod hell;
