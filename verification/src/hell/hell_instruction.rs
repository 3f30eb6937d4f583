use vstd::prelude::*;

verus! {

/// Actions that can be performed with the hell instance.
///
/// Every client-handle operation turns into exactly one of these values,
/// enqueued on the broker's single instruction queue and processed strictly
/// in arrival order. A pending call (its one-shot reply channel together
/// with its opaque payload) is named here by a `ticket`: the runtime shell
/// that owns the channels keeps the pairing from ticket to channel, while
/// the broker's verified logic decides everything about the ticket alone.
#[derive(Clone, Copy, Debug)]
pub enum HellInstruction {
    /// Requests address reservation
    CreateAddress,
    /// Requests demon registration under a reserved address
    RegisterDemon { address: usize },
    /// Requests for a message to be delivered to a demon; `ignore` asks the
    /// broker to answer at once and discard the demon's eventual reply
    Message { address: usize, ticket: u64, ignore: bool },
    /// Requests demon removal. `ignore` detaches the wait for the demon's
    /// confirmation (the demon is counted as a zombie meanwhile); `force`
    /// overrides the broker's default killswitch timeout for this call,
    /// where `Some(None)` means "wait forever" and `Some(Some(ms))` means
    /// "killswitch after `ms` milliseconds".
    RemoveDemon { address: usize, ignore: bool, force: Option<Option<u64>> },
    /// Requests the stats snapshot
    Stats,
    /// Asks for termination of the broker; `wait` asks it to drain every
    /// remaining demon gracefully before confirming
    Extinguish { wait: bool },
}

} // verus!
