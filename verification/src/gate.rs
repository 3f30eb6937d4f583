use vstd::prelude::*;

use crate::hell::HellInstruction;

verus! {

// Every operation of the client handle ("gate") enqueues exactly one broker
// instruction and then awaits a one-shot reply; the functions here are the
// decisions those operations take — which instruction, with which flags.
// The handle itself (a clone of the broker's channel) lives with the
// runtime shell.

/// A `send` or `send_and_ignore` call: deliver the pending call `ticket` to
/// the demon at `address`; with `ignore` the broker answers at once and the
/// demon's eventual reply is discarded.
pub fn message_instruction(address: usize, ticket: u64, ignore: bool) -> (r: HellInstruction)
    ensures
        r == (HellInstruction::Message { address, ticket, ignore }),
{
    HellInstruction::Message { address, ticket, ignore }
}

/// A `vanquish` call: graceful removal, waiting for the demon's
/// confirmation, under the broker's default timeout.
pub fn vanquish_instruction(address: usize) -> (r: HellInstruction)
    ensures
        r == (HellInstruction::RemoveDemon { address, ignore: false, force: None }),
{
    HellInstruction::RemoveDemon { address, ignore: false, force: None }
}

/// A `vanquish_with_timeout` call: graceful removal waiting for the demon's
/// confirmation, but with the broker's default timeout overridden for this
/// one call — by a timeout in milliseconds, or by `None` for an unbounded
/// wait.
pub fn vanquish_with_timeout_instruction(address: usize, timeout: Option<u64>) -> (r:
    HellInstruction)
    ensures
        r == (HellInstruction::RemoveDemon { address, ignore: false, force: Some(timeout) }),
{
    HellInstruction::RemoveDemon { address, ignore: false, force: Some(timeout) }
}

/// A `vanquish_and_ignore` call: removal whose confirmation wait is
/// detached; the demon is counted as a zombie until that wait resolves.
pub fn vanquish_and_ignore_instruction(address: usize) -> (r: HellInstruction)
    ensures
        r == (HellInstruction::RemoveDemon { address, ignore: true, force: None }),
{
    HellInstruction::RemoveDemon { address, ignore: true, force: None }
}

/// A `vanquish_and_ignore_with_timeout` call: detached removal with the
/// default timeout overridden for this one call.
pub fn vanquish_and_ignore_with_timeout_instruction(address: usize, timeout: Option<u64>) -> (r:
    HellInstruction)
    ensures
        r == (HellInstruction::RemoveDemon { address, ignore: true, force: Some(timeout) }),
{
    HellInstruction::RemoveDemon { address, ignore: true, force: Some(timeout) }
}

/// An `extinguish` call: stop the broker; with `wait` the caller is
/// answered only once every demon's shutdown has resolved.
pub fn extinguish_instruction(wait: bool) -> (r: HellInstruction)
    ensures
        r == (HellInstruction::Extinguish { wait }),
{
    HellInstruction::Extinguish { wait }
}

/// A `stats` call: ask for the snapshot of the broker's running totals.
pub fn stats_instruction() -> (r: HellInstruction)
    ensures
        r is Stats,
{
    HellInstruction::Stats
}

/// A `spawn` or `spawn_multiple` call's first round trip: reserve a fresh
/// address.
pub fn create_address_instruction() -> (r: HellInstruction)
    ensures
        r is CreateAddress,
{
    HellInstruction::CreateAddress
}

/// A `spawn` or `spawn_multiple` call's second round trip: register the
/// freshly started demon task under the reserved address.
pub fn register_demon_instruction(address: usize) -> (r: HellInstruction)
    ensures
        r == (HellInstruction::RegisterDemon { address }),
{
    HellInstruction::RegisterDemon { address }
}

} // verus!
