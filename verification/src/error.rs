use vstd::prelude::*;

verus! {

/// Errors thrown by this library.
#[derive(Debug)]
pub enum Error {
    /// Error when using either oneshot or mpsc channels
    TokioSend(String),
    /// Error when receiving a confirmation of operation from a channel
    RecvError(String),
    /// IO errors (for example, tcp errors)
    IO(String),
    /// In theory, impossible error for opaque-input to `Input` and
    /// opaque-output to `Output` conversion
    WrongType,
    /// The replicas parameter supplied needs to be at least 1
    WrongReplicas,
    /// Indicates that there is no such demon with this location
    InvalidLocation,
    /// Indicates that the address that is trying to be occupied is already taken
    OccupiedAddress,
    /// Indicates that communication with the demon could not be established
    /// (probably a broken channel)
    DemonCommunication,
}

impl Error {
    /// A human-readable account of the error, one fixed sentence per
    /// variant; the carried detail string is returned as-is for the
    /// channel-failure variants.
    pub fn description(&self) -> (r: &str)
        ensures
            self matches Error::TokioSend(d) ==> r@ == d@,
            self matches Error::RecvError(d) ==> r@ == d@,
            self matches Error::IO(d) ==> r@ == d@,
            self is WrongType ==> r@ == "a correct opaque-value to `Input` or `Output` conversion failed... contact this library's developer"@,
            self is WrongReplicas ==> r@ == "the minimum number of replicas needs to be 1"@,
            self is InvalidLocation ==> r@ == "the location is no longer valid"@,
            self is OccupiedAddress ==> r@ == "the location for this demon is already taken"@,
            self is DemonCommunication ==> r@ == "message to the demon could not be delivered"@,
    {
        match self {
            Error::TokioSend(detail) => detail.as_str(),
            Error::RecvError(detail) => detail.as_str(),
            Error::IO(detail) => detail.as_str(),
            Error::WrongType => "a correct opaque-value to `Input` or `Output` conversion failed... contact this library's developer",
            Error::WrongReplicas => "the minimum number of replicas needs to be 1",
            Error::InvalidLocation => "the location is no longer valid",
            Error::OccupiedAddress => "the location for this demon is already taken",
            Error::DemonCommunication => "message to the demon could not be delivered",
        }
    }
}

} // verus!
