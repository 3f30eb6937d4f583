use vstd::prelude::*;

use crate::error::Error;

pub use self::hell_instruction::HellInstruction;
pub use self::hell_stats::HellStats;
pub use self::mini_hell::ClosingStep;
pub use self::mini_hell::MiniHell;
pub use self::mini_hell::MiniPhase;
pub use self::mini_hell::MiniView;
pub use self::mini_hell::closing_plan_spec;
pub use self::mini_hell::in_flight;
pub use self::mini_hell::lemma_graceful_vanquish_before_confirm;
pub use self::mini_hell::lemma_handled_prefix_of_accepted;
pub use self::mini_hell::lemma_killswitch_skips_vanquish;
pub use self::multiple_mini_hell::Dispatch;
pub use self::multiple_mini_hell::MultipleMiniHell;
pub use self::multiple_mini_hell::PoolPhase;
pub use self::multiple_mini_hell::PoolView;
pub use self::multiple_mini_hell::lemma_no_waiting_with_idle_replica;

mod hell_instruction;
mod hell_stats;
mod mini_hell;
mod multiple_mini_hell;
mod util;

use self::util::lemma_push_fresh;
use self::util::lemma_remove_at;
use self::util::vec_contains;
use self::util::vec_find;

verus! {

/// Relies on chrono::Utc::now together with chrono::DateTime::timestamp_millis:
/// the current wall-clock time in milliseconds since the Unix epoch. The
/// value depends on the clock, so nothing is promised of it.
#[verifier::external_body]
fn now_millis() -> i64 {
    chrono::Utc::now().timestamp_millis()
}

/// The mathematical state of one broker: what [`Hell`] looks like in
/// contracts.
#[verifier::ext_equal]
pub struct HellView {
    /// Next address to hand out; also the count of addresses ever issued
    pub counter: usize,
    /// Addresses currently registered (holding a live demon)
    pub demons: Set<usize>,
    /// Demons whose detached shutdown wait has not resolved yet
    pub zombie_counter: usize,
    /// Messages forwarded into a demon's channel
    pub successful_messages: usize,
    /// Messages whose forwarding failed
    pub failed_messages: usize,
    /// Default killswitch timeout for removals, in milliseconds
    pub timeout: Option<u64>,
    /// Ignition instant, in milliseconds since the Unix epoch
    pub ignition_time: i64,
    /// Every address handed out so far, in the order of reservation
    pub issued: Seq<usize>,
}

impl HellView {
    /// The broker invariant: registered and issued addresses all lie below
    /// the counter, and issued addresses strictly increase, so no address is
    /// ever handed out twice.
    pub open spec fn inv(self) -> bool {
        &&& self.demons.finite()
        &&& forall|a: usize| self.demons.contains(a) ==> a < self.counter
        &&& forall|i: int, j: int|
            0 <= i < j < self.issued.len() ==> #[trigger] self.issued[i] < #[trigger] self.issued[j]
        &&& forall|i: int| 0 <= i < self.issued.len() ==> #[trigger] self.issued[i] < self.counter
    }
}

/// A broker state holding no demons, with nothing counted yet.
pub open spec fn init_view(timeout: Option<u64>, ignition_time: i64) -> HellView {
    HellView {
        counter: 0,
        demons: Set::empty(),
        zombie_counter: 0,
        successful_messages: 0,
        failed_messages: 0,
        timeout,
        ignition_time,
        issued: Seq::empty(),
    }
}

/// Reserving an address hands out the counter and moves it up by one.
pub open spec fn commit_address_spec(v: HellView) -> HellView {
    HellView { counter: (v.counter + 1) as usize, issued: v.issued.push(v.counter), ..v }
}

/// Registering a demon adds its address to the registry.
pub open spec fn register_spec(v: HellView, address: usize) -> HellView {
    HellView { demons: v.demons.insert(address), ..v }
}

/// Removing a demon drops its address from the registry.
pub open spec fn remove_spec(v: HellView, address: usize) -> HellView {
    HellView { demons: v.demons.remove(address), ..v }
}

/// Forwarding a message moves one of the two delivery counters up.
pub open spec fn record_outcome_spec(v: HellView, delivered: bool) -> HellView {
    if delivered {
        HellView { successful_messages: (v.successful_messages + 1) as usize, ..v }
    } else {
        HellView { failed_messages: (v.failed_messages + 1) as usize, ..v }
    }
}

/// A detached removal wait starts: one more zombie.
pub open spec fn add_zombie_spec(v: HellView) -> HellView {
    HellView { zombie_counter: (v.zombie_counter + 1) as usize, ..v }
}

/// A detached removal wait resolved: one less zombie.
pub open spec fn zombie_done_spec(v: HellView) -> HellView {
    HellView { zombie_counter: (v.zombie_counter - 1) as usize, ..v }
}

/// Extinguishing empties the registry; every demon is handed to the
/// shutdown protocol.
pub open spec fn extinguish_spec(v: HellView) -> HellView {
    HellView { demons: Set::empty(), ..v }
}

/// Builder helper for a Hell instance.
pub struct HellBuilder {
    /// Timeout before shutdown of a demon, in milliseconds
    timeout: Option<u64>,
}

impl HellBuilder {
    /// The default vanquish timeout this builder will give the instance, in
    /// milliseconds.
    pub closed spec fn timeout_millis(self) -> Option<u64> {
        self.timeout
    }

    /// Generates a new instance of a hell builder, with no default vanquish
    /// timeout: vanquish calls wait for the demon however long it takes.
    pub fn new() -> (b: HellBuilder)
        ensures
            b.timeout_millis() is None,
    {
        HellBuilder { timeout: None }
    }

    /// Sets a timeout, in milliseconds, for the vanquish method to be
    /// executed: a removal fires the killswitch once this much time has
    /// passed without the demon confirming its shutdown.
    pub fn timeout(self, timeout: u64) -> (b: HellBuilder)
        ensures
            b.timeout_millis() == Some(timeout),
    {
        HellBuilder { timeout: Some(timeout) }
    }

    /// Generates the hell instance from the builder params.
    pub fn build(self) -> (h: Hell)
        ensures
            h.wf(),
            h@ == init_view(self.timeout_millis(), h@.ignition_time),
    {
        let h = Hell {
            counter: 0,
            successful_messages: 0,
            failed_messages: 0,
            zombie_counter: 0,
            demons: Vec::new(),
            timeout: self.timeout,
            ignition_time: now_millis(),
            issued: Ghost(Seq::empty()),
        };
        proof {
            assert(h@.demons =~= Set::<usize>::empty());
        }
        h
    }
}

/// ## Hell structure
///
/// The broker: the single owner of the address registry and the running
/// totals. One task owns a `Hell` value and feeds it instructions one at a
/// time, in arrival order; every decision the broker takes is a method here
/// with a proved contract, while the channels, tasks and timers that carry
/// the decisions out live with that owning task.
pub struct Hell {
    /// Demon counter, to assign a unique address to each demon
    counter: usize,
    /// Amount of messages delivered to demons
    successful_messages: usize,
    /// Amount of messages whose delivery failed
    failed_messages: usize,
    /// Zombie counter
    zombie_counter: usize,
    /// Addresses of the currently registered demons
    demons: Vec<usize>,
    /// Maximum wait time for killswitch calls, in milliseconds
    timeout: Option<u64>,
    /// Time that hell has been active, in milliseconds since the Unix epoch
    ignition_time: i64,
    /// History of every address handed out
    issued: Ghost<Seq<usize>>,
}

impl View for Hell {
    type V = HellView;

    closed spec fn view(&self) -> HellView {
        HellView {
            counter: self.counter,
            demons: self.demons@.to_set(),
            zombie_counter: self.zombie_counter,
            successful_messages: self.successful_messages,
            failed_messages: self.failed_messages,
            timeout: self.timeout,
            ignition_time: self.ignition_time,
            issued: self.issued@,
        }
    }
}

impl Hell {
    /// Well-formedness: the registry vector holds each address once, and
    /// the abstract state satisfies the broker invariant.
    pub closed spec fn wf(self) -> bool {
        &&& self.demons@.no_duplicates()
        &&& self@.inv()
    }

    /// A well-formed broker satisfies the abstract invariant, so the laws
    /// stated over [`HellView`] apply to it.
    pub proof fn lemma_wf_implies_inv(self)
        requires
            self.wf(),
        ensures
            self@.inv(),
    {
    }

    /// Creates a new hell instance with default parameters.
    ///
    /// In this case, a timeout is not set, and vanquish calls are executed
    /// until the demon gracefully shuts down.
    pub fn new() -> (h: Hell)
        ensures
            h.wf(),
            h@ == init_view(None, h@.ignition_time),
    {
        HellBuilder::new().build()
    }

    /// Creates a new [`HellBuilder`].
    pub fn builder() -> (b: HellBuilder)
        ensures
            b.timeout_millis() is None,
    {
        HellBuilder::new()
    }

    /// Restamps the ignition time to the present instant; the owning task
    /// does this once, right before it starts processing instructions.
    /// Nothing else about the state changes.
    pub fn record_ignition(&mut self)
        requires
            old(self).wf(),
        ensures
            final(self).wf(),
            final(self)@ == (HellView { ignition_time: final(self)@.ignition_time, ..old(self)@ }),
    {
        self.ignition_time = now_millis();
    }

    /// The address the next reservation will hand out.
    pub fn next_address(&self) -> (addr: usize)
        ensures
            addr == self@.counter,
    {
        self.counter
    }

    /// Commits an address reservation: the address just handed out (the old
    /// counter) is recorded as issued and the counter moves past it. The
    /// owning task commits only when the reservation reached its requester,
    /// so an unread reservation is not leaked.
    pub fn commit_address(&mut self)
        requires
            old(self).wf(),
            old(self)@.counter < usize::MAX,
        ensures
            final(self).wf(),
            final(self)@ == commit_address_spec(old(self)@),
    {
        let ghost c: usize = self.counter;
        self.counter = self.counter + 1;
        proof {
            self.issued@ = self.issued@.push(c);
        }
    }

    /// Registers a demon under a reserved address: the address joins the
    /// registry only if it is vacant, and the call says exactly when it is
    /// not.
    pub fn register_demon(&mut self, address: usize) -> (r: Result<(), Error>)
        requires
            old(self).wf(),
            address < old(self)@.counter,
        ensures
            final(self).wf(),
            old(self)@.demons.contains(address) ==> (r matches Err(Error::OccupiedAddress)
                && final(self)@ == old(self)@),
            !old(self)@.demons.contains(address) ==> r is Ok && final(self)@ == register_spec(
                old(self)@,
                address,
            ),
    {
        if vec_contains(&self.demons, address) {
            Err(Error::OccupiedAddress)
        } else {
            proof {
                lemma_push_fresh(self.demons@, address);
            }
            self.demons.push(address);
            Ok(())
        }
    }

    /// Rolls a registration back: used when the confirmation of a
    /// just-completed registration cannot be delivered, so that no
    /// unreachable, unkillable demon stays behind.
    pub fn rollback_registration(&mut self, address: usize)
        requires
            old(self).wf(),
        ensures
            final(self).wf(),
            final(self)@ == remove_spec(old(self)@, address),
    {
        let _ = self.remove_demon(address);
    }

    /// Decides how a message to `address` is routed: into the demon's
    /// channel when the address is registered, and answered
    /// `InvalidLocation` at once when it is not. A message routed after a
    /// removal therefore never succeeds and never hangs.
    pub fn route_message(&self, address: usize) -> (r: Result<(), Error>)
        ensures
            r is Ok <==> self@.demons.contains(address),
            !self@.demons.contains(address) ==> r matches Err(Error::InvalidLocation),
    {
        if vec_contains(&self.demons, address) {
            Ok(())
        } else {
            Err(Error::InvalidLocation)
        }
    }

    /// Records whether a routed message could be handed into the demon's
    /// own channel.
    pub fn record_message_outcome(&mut self, delivered: bool)
        requires
            old(self).wf(),
            delivered ==> old(self)@.successful_messages < usize::MAX,
            !delivered ==> old(self)@.failed_messages < usize::MAX,
        ensures
            final(self).wf(),
            final(self)@ == record_outcome_spec(old(self)@, delivered),
    {
        if delivered {
            self.successful_messages = self.successful_messages + 1;
        } else {
            self.failed_messages = self.failed_messages + 1;
        }
    }

    /// Pops a demon from the registry. The address becomes un-addressable
    /// at once: new messages and removals for it are answered
    /// `InvalidLocation`, even while the demon's task is still draining.
    pub fn remove_demon(&mut self, address: usize) -> (found: bool)
        requires
            old(self).wf(),
        ensures
            final(self).wf(),
            found <==> old(self)@.demons.contains(address),
            final(self)@ == remove_spec(old(self)@, address),
            !final(self)@.demons.contains(address),
    {
        match vec_find(&self.demons, address) {
            Some(i) => {
                proof {
                    lemma_remove_at(self.demons@, i as int);
                }
                let _ = self.demons.remove(i);
                true
            },
            None => {
                proof {
                    assert(old(self)@.demons.remove(address) =~= old(self)@.demons);
                }
                false
            },
        }
    }

    /// The timeout that governs one removal: an explicit `force` overrides
    /// the broker's default.
    pub fn effective_timeout(&self, force: Option<Option<u64>>) -> (t: Option<u64>)
        ensures
            force matches Some(o) ==> t == o,
            force is None ==> t == self@.timeout,
    {
        match force {
            Some(o) => o,
            None => self.timeout,
        }
    }

    /// A detached removal wait begins: the demon is counted as a zombie
    /// until the wait resolves.
    pub fn add_zombie(&mut self)
        requires
            old(self).wf(),
            old(self)@.zombie_counter < usize::MAX,
        ensures
            final(self).wf(),
            final(self)@ == add_zombie_spec(old(self)@),
    {
        self.zombie_counter = self.zombie_counter + 1;
    }

    /// A detached removal wait resolved: the demon stops being counted as a
    /// zombie.
    pub fn zombie_done(&mut self)
        requires
            old(self).wf(),
            old(self)@.zombie_counter >= 1,
        ensures
            final(self).wf(),
            final(self)@ == zombie_done_spec(old(self)@),
    {
        self.zombie_counter = self.zombie_counter - 1;
    }

    /// The stats snapshot, exactly as the state stands now: spawned is the
    /// count of addresses ever issued, active the count of registered
    /// demons.
    pub fn stats(&self) -> (s: HellStats)
        requires
            self.wf(),
        ensures
            s.spawned_demons == self@.counter,
            s.active_demons == self@.demons.len(),
            s.zombie_demons == self@.zombie_counter,
            s.successful_messages == self@.successful_messages,
            s.failed_messages == self@.failed_messages,
            s.ignition_time == self@.ignition_time,
    {
        proof {
            self.demons@.unique_seq_to_set();
        }
        HellStats {
            spawned_demons: self.counter,
            active_demons: self.demons.len(),
            zombie_demons: self.zombie_counter,
            successful_messages: self.successful_messages,
            failed_messages: self.failed_messages,
            ignition_time: self.ignition_time,
        }
    }

    /// Extinguishes the broker: every registered demon leaves the registry
    /// and is returned, so that the owning task can run the shutdown
    /// protocol on each of them.
    pub fn extinguish(&mut self) -> (addrs: Vec<usize>)
        requires
            old(self).wf(),
        ensures
            final(self).wf(),
            final(self)@ == extinguish_spec(old(self)@),
            addrs@.to_set() == old(self)@.demons,
            addrs@.no_duplicates(),
    {
        let mut addrs: Vec<usize> = Vec::new();
        core::mem::swap(&mut addrs, &mut self.demons);
        proof {
            assert(self.demons@.to_set() =~= Set::<usize>::empty());
        }
        addrs
    }
}

/// The reply a removal request is answered with: `InvalidLocation` when the
/// address was not registered, `DemonCommunication` when the demon was
/// popped but its channel no longer accepted the shutdown instruction, and
/// success once the shutdown protocol has resolved.
pub fn removal_reply(found: bool, shutdown_delivered: bool) -> (r: Result<(), Error>)
    ensures
        !found ==> r matches Err(Error::InvalidLocation),
        found && !shutdown_delivered ==> r matches Err(Error::DemonCommunication),
        found && shutdown_delivered ==> r is Ok,
{
    if !found {
        Err(Error::InvalidLocation)
    } else if !shutdown_delivered {
        Err(Error::DemonCommunication)
    } else {
        Ok(())
    }
}

/// No two simultaneously registered demons share an address, and the next
/// address to be issued is not registered either: registration inserts into
/// a set of addresses that all lie strictly below the counter.
pub proof fn lemma_fresh_address_unregistered(v: HellView)
    requires
        v.inv(),
    ensures
        !v.demons.contains(v.counter),
{
}

/// A removal makes its address un-addressable at once: a message routed
/// after the removal finds the address unregistered, so
/// [`Hell::route_message`] answers it `InvalidLocation` — the send never
/// succeeds and never hangs.
pub proof fn lemma_route_after_remove(v: HellView, address: usize)
    ensures
        !remove_spec(v, address).demons.contains(address),
{
}

/// Addresses are never reused within one broker lifetime: any two addresses
/// the broker issued at different times differ.
pub proof fn lemma_issued_addresses_distinct(v: HellView, i: int, j: int)
    requires
        v.inv(),
        0 <= i < v.issued.len(),
        0 <= j < v.issued.len(),
        i != j,
    ensures
        v.issued[i] != v.issued[j],
{
}

} // verus!
