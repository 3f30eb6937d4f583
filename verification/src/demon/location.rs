use vstd::prelude::*;

use core::marker::PhantomData;

verus! {

/// Demon's location (to be able to send messages).
///
/// A location is handed out once a spawn completes. It wraps the broker's
/// address for the demon together with a compile-time type tag, so that a
/// location can only carry messages of the input and output types its demon
/// was declared with. Locations compare equal by address alone, and a
/// location stays meaningful only while its address is still registered
/// with the broker: after a removal, sends through it are answered with an
/// invalid-location error.
pub struct Location<E: ?Sized> {
    /// Actual id of the demon
    address: usize,
    /// Type tag tying this location to its demon's message types
    phantom: PhantomData<E>,
}

impl<E: ?Sized> Location<E> {
    /// The broker-assigned address this location stands for.
    pub closed spec fn addr(self) -> usize {
        self.address
    }

    /// Wraps a broker-assigned address. Meant for the runtime shell that
    /// completes a spawn; a location made from an address that the broker
    /// never assigned is answered with an invalid-location error on use.
    pub fn new(address: usize) -> (r: Location<E>)
        ensures
            r.addr() == address,
    {
        Location { address, phantom: PhantomData }
    }

    /// Reads the address back, for routing an instruction to the broker.
    pub fn address(&self) -> (a: usize)
        ensures
            a == self.addr(),
    {
        self.address
    }
}

impl<E: ?Sized> Clone for Location<E> {
    fn clone(&self) -> (r: Location<E>)
        ensures
            r == *self,
    {
        Location { address: self.address, phantom: PhantomData }
    }
}

impl<E: ?Sized> PartialEq for Location<E> {
    fn eq(&self, other: &Self) -> (r: bool)
    {
        self.address == other.address
    }
}

impl<E: ?Sized> vstd::std_specs::cmp::PartialEqSpecImpl for Location<E> {
    open spec fn obeys_eq_spec() -> bool {
        true
    }

    open spec fn eq_spec(&self, other: &Location<E>) -> bool {
        self.addr() == other.addr()
    }
}

impl<E: ?Sized> Eq for Location<E> {}

} // verus!
