use vstd::prelude::*;

verus! {

/// A snapshot of the broker's running totals.
///
/// The snapshot is taken while the broker processes the stats request, so it
/// is linearizable with every registry mutation: the counts are exactly the
/// ones that held when the request was dequeued.
#[derive(Clone, Copy, Debug, PartialEq, Eq, Structural)]
pub struct HellStats {
    /// Amount of spawned demons through the lifetime of this hell instance
    pub spawned_demons: usize,
    /// Amount of active demons at the time of the call
    pub active_demons: usize,
    /// Zombie demons. That is, the instance still exists for whatever
    /// reason, but is no longer reachable
    pub zombie_demons: usize,
    /// Total number of messages delivered to demons
    pub successful_messages: usize,
    /// Total number of messages whose delivery failed
    pub failed_messages: usize,
    /// Time of ignition of the hell instance, in milliseconds since the
    /// Unix epoch
    pub ignition_time: i64,
}

} // verus!
