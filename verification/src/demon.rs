use vstd::prelude::*;

use crate::error::Error;

pub use self::location::Location;
mod location;

verus! {

/// Demon trait.
///
/// Demons are the actors of this runtime. Implement this trait to let a
/// value be spawned under the broker and reply to messages. A demon's
/// mutable state is owned exclusively by the task that drains its mailbox,
/// so `handle` runs for one message at a time, in mailbox order.
pub trait Demon: Sized + Send + 'static {
    type Input;
    type Output;

    /// Called once when the demon is spawned, with the demon's own
    /// location.
    ///
    /// By default, the function does nothing.
    fn spawned(&mut self, _location: Location<Self>) {
    }

    /// Handler function for messages.
    ///
    /// This is the main function, called for every message that the broker
    /// delivers to this demon.
    fn handle(&mut self, message: Self::Input) -> Self::Output;

    /// Called when the demon is removed gracefully; skipped when the demon
    /// is removed by a killswitch.
    ///
    /// By default, the function does nothing.
    fn vanquished(self) {
    }

    /// An optional textual identifier for diagnostics, shown by runtime
    /// shells that log this demon's activity.
    ///
    /// By default, the identifier is empty.
    fn id(&self) -> String {
        String::new()
    }

    /// An optional textual identifier for diagnostics, for a demon running
    /// as one replica of a pool.
    ///
    /// By default, the identifier is empty.
    fn multiple_id() -> &'static str {
        ""
    }
}

/// The typed face of the broker's type-erased dispatch: hands one message
/// to one demon and returns its reply. The erased dispatch must guard
/// against a payload of the wrong type; here the message is typed by the
/// demon's own `Input`, so that mismatch cannot arise and the result is
/// always `Ok`.
pub fn dispatch<D: Demon>(demon: &mut D, message: D::Input) -> (r: Result<D::Output, Error>)
    ensures
        r is Ok,
{
    Ok(demon.handle(message))
}

} // verus!
