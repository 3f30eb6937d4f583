use vstd::prelude::*;

verus! {

/// Where a demon's task stands in its life.
#[derive(Clone, Copy, Debug, PartialEq, Eq, Structural)]
pub enum MiniPhase {
    /// Selecting over the killswitch, the buffered mailbox and the
    /// instruction channel
    Running,
    /// A `handle` call for this ticket is in flight, racing the killswitch
    Handling { ticket: u64 },
    /// The loop has exited; `killswitched` says whether the killswitch won,
    /// `confirm` whether a confirmation channel is held
    Closing { killswitched: bool, confirm: bool },
}

/// What a demon task does after its loop exits, in order.
#[derive(Clone, Copy, Debug, PartialEq, Eq, Structural)]
pub enum ClosingStep {
    /// Run the demon's on-vanquish hook (itself racing any late killswitch)
    RunVanquish,
    /// Signal the confirmation channel, exactly once
    SendConfirm,
}

/// The pending calls a phase holds in flight: one while handling, none
/// otherwise.
pub open spec fn in_flight(phase: MiniPhase) -> Seq<u64> {
    match phase {
        MiniPhase::Handling { ticket } => seq![ticket],
        _ => Seq::empty(),
    }
}

/// The post-loop plan of a demon task: the on-vanquish hook runs if and
/// only if the task was not killswitched, and it runs before the
/// confirmation is signalled.
pub open spec fn closing_plan_spec(killswitched: bool, confirm: bool) -> Seq<ClosingStep> {
    if killswitched {
        if confirm {
            seq![ClosingStep::SendConfirm]
        } else {
            Seq::empty()
        }
    } else {
        if confirm {
            seq![ClosingStep::RunVanquish, ClosingStep::SendConfirm]
        } else {
            seq![ClosingStep::RunVanquish]
        }
    }
}

/// The mathematical state of one demon task: what [`MiniHell`] looks like
/// in contracts. `accepted`, `handled` and `lost` are histories: every
/// ticket the task ever took in, the ones already answered (in answer
/// order), and the one a killswitch aborted mid-handle.
#[verifier::ext_equal]
pub struct MiniView {
    pub phase: MiniPhase,
    pub pending: Seq<u64>,
    pub accepted: Seq<u64>,
    pub handled: Seq<u64>,
    pub lost: Seq<u64>,
}

impl MiniView {
    /// The task invariant: the accepted history splits exactly into the
    /// handled prefix, the call in flight, the call a killswitch aborted,
    /// and the still-pending queue — in that order. Handling therefore
    /// follows acceptance order, and only a killswitch can lose a call.
    pub open spec fn inv(self) -> bool {
        &&& self.accepted == self.handled + in_flight(self.phase) + self.lost + self.pending
        &&& self.lost.len() > 0 ==> self.phase matches MiniPhase::Closing { killswitched: true, .. }
    }
}

/// Structure that holds the life of a single demon: the state of the task
/// that owns the demon exclusively and drains its mailbox of pending calls
/// one at a time.
///
/// A pending call (reply channel plus opaque input) is named by a `ticket`;
/// the runtime shell that owns the channels keeps the pairing and asks this
/// state machine what to do with each event: a new message, the completion
/// of a `handle` call, a graceful shutdown or the killswitch.
pub struct MiniHell {
    phase: MiniPhase,
    pending: Vec<u64>,
    accepted: Ghost<Seq<u64>>,
    handled: Ghost<Seq<u64>>,
    lost: Ghost<Seq<u64>>,
}

impl View for MiniHell {
    type V = MiniView;

    closed spec fn view(&self) -> MiniView {
        MiniView {
            phase: self.phase,
            pending: self.pending@,
            accepted: self.accepted@,
            handled: self.handled@,
            lost: self.lost@,
        }
    }
}

impl MiniHell {
    /// A fresh task, with nothing accepted yet. The runtime shell runs the
    /// demon's on-spawn hook before feeding the first event.
    pub fn new() -> (m: MiniHell)
        ensures
            m@.inv(),
            m@.phase is Running,
            m@.pending == Seq::<u64>::empty(),
            m@.accepted == Seq::<u64>::empty(),
            m@.handled == Seq::<u64>::empty(),
            m@.lost == Seq::<u64>::empty(),
    {
        let m = MiniHell {
            phase: MiniPhase::Running,
            pending: Vec::new(),
            accepted: Ghost(Seq::empty()),
            handled: Ghost(Seq::empty()),
            lost: Ghost(Seq::empty()),
        };
        proof {
            assert(m@.accepted =~= m@.handled + in_flight(m@.phase) + m@.lost + m@.pending);
        }
        m
    }

    /// A message instruction arrived: the call joins the back of the
    /// mailbox, keeping arrival order.
    pub fn accept_message(&mut self, ticket: u64)
        requires
            old(self)@.inv(),
            old(self)@.phase is Running,
        ensures
            final(self)@.inv(),
            final(self)@.phase == old(self)@.phase,
            final(self)@.pending == old(self)@.pending.push(ticket),
            final(self)@.accepted == old(self)@.accepted.push(ticket),
            final(self)@.handled == old(self)@.handled,
            final(self)@.lost == old(self)@.lost,
    {
        self.pending.push(ticket);
        proof {
            self.accepted@ = self.accepted@.push(ticket);
            assert(final(self)@.accepted =~= final(self)@.handled + in_flight(final(self)@.phase)
                + final(self)@.lost + final(self)@.pending);
        }
    }

    /// Takes the oldest pending call and starts its `handle` run. Returns
    /// which ticket is now in flight, or `None` (and changes nothing) when
    /// the mailbox is empty.
    pub fn start_handle(&mut self) -> (r: Option<u64>)
        requires
            old(self)@.inv(),
            old(self)@.phase is Running,
        ensures
            final(self)@.inv(),
            old(self)@.pending.len() == 0 ==> r is None && final(self)@ == old(self)@,
            old(self)@.pending.len() > 0 ==> r == Some(old(self)@.pending[0])
                && final(self)@.phase == (MiniPhase::Handling { ticket: old(self)@.pending[0] })
                && final(self)@.pending == old(self)@.pending.drop_first()
                && final(self)@.accepted == old(self)@.accepted
                && final(self)@.handled == old(self)@.handled
                && final(self)@.lost == old(self)@.lost,
    {
        if self.pending.len() == 0 {
            None
        } else {
            let ticket = self.pending.remove(0);
            self.phase = MiniPhase::Handling { ticket };
            proof {
                assert(final(self)@.pending =~= old(self)@.pending.drop_first());
                assert(final(self)@.accepted =~= final(self)@.handled + in_flight(
                    final(self)@.phase,
                ) + final(self)@.lost + final(self)@.pending);
            }
            Some(ticket)
        }
    }

    /// The in-flight `handle` run returned: its ticket joins the handled
    /// history (the shell sends the reply through the ticket's channel) and
    /// the task selects again.
    pub fn finish_handle(&mut self)
        requires
            old(self)@.inv(),
            old(self)@.phase is Handling,
        ensures
            final(self)@.inv(),
            final(self)@.phase is Running,
            final(self)@.handled == old(self)@.handled.push(old(self)@.phase->ticket),
            final(self)@.pending == old(self)@.pending,
            final(self)@.accepted == old(self)@.accepted,
            final(self)@.lost == old(self)@.lost,
    {
        let ghost t: u64 = self.phase->ticket;
        self.phase = MiniPhase::Running;
        proof {
            self.handled@ = self.handled@.push(t);
            assert(final(self)@.accepted =~= final(self)@.handled + in_flight(final(self)@.phase)
                + final(self)@.lost + final(self)@.pending);
        }
    }

    /// The killswitch fired: the loop exits at once. An in-flight `handle`
    /// run is aborted and its call is lost — its reply channel never
    /// resolves. `confirm` says whether the killswitch carried a
    /// confirmation channel.
    pub fn killswitch(&mut self, confirm: bool)
        requires
            old(self)@.inv(),
            !(old(self)@.phase is Closing),
        ensures
            final(self)@.inv(),
            final(self)@.phase == (MiniPhase::Closing { killswitched: true, confirm }),
            final(self)@.pending == old(self)@.pending,
            final(self)@.accepted == old(self)@.accepted,
            final(self)@.handled == old(self)@.handled,
            final(self)@.lost == old(self)@.lost + in_flight(old(self)@.phase),
    {
        proof {
            self.lost@ = self.lost@ + in_flight(self.phase);
        }
        self.phase = MiniPhase::Closing { killswitched: true, confirm };
        proof {
            assert(final(self)@.accepted =~= final(self)@.handled + in_flight(final(self)@.phase)
                + final(self)@.lost + final(self)@.pending);
        }
    }

    /// A graceful shutdown instruction arrived (or every channel to the
    /// task closed, in which case no confirmation channel is held): the
    /// loop exits; calls still pending are left unanswered.
    pub fn shutdown(&mut self, confirm: bool)
        requires
            old(self)@.inv(),
            old(self)@.phase is Running,
        ensures
            final(self)@.inv(),
            final(self)@.phase == (MiniPhase::Closing { killswitched: false, confirm }),
            final(self)@.pending == old(self)@.pending,
            final(self)@.accepted == old(self)@.accepted,
            final(self)@.handled == old(self)@.handled,
            final(self)@.lost == old(self)@.lost,
    {
        self.phase = MiniPhase::Closing { killswitched: false, confirm };
        proof {
            assert(final(self)@.accepted =~= final(self)@.handled + in_flight(final(self)@.phase)
                + final(self)@.lost + final(self)@.pending);
        }
    }

    /// What to do after the loop has exited, in order: run the on-vanquish
    /// hook exactly when the task was not killswitched, then signal the
    /// confirmation channel if one is held.
    pub fn closing_plan(&self) -> (plan: Vec<ClosingStep>)
        requires
            self@.phase is Closing,
        ensures
            plan@ == closing_plan_spec(self@.phase->killswitched, self@.phase->confirm),
    {
        match self.phase {
            MiniPhase::Closing { killswitched, confirm } => {
                let mut plan: Vec<ClosingStep> = Vec::new();
                if !killswitched {
                    plan.push(ClosingStep::RunVanquish);
                }
                if confirm {
                    plan.push(ClosingStep::SendConfirm);
                }
                proof {
                    assert(plan@ =~= closing_plan_spec(killswitched, confirm));
                }
                plan
            },
            _ => vstd::pervasive::unreached(),
        }
    }
}

/// Messages sent to the same demon are handled in the order they were
/// accepted: at every reachable task state, the handled history is a prefix
/// of the accepted history.
pub proof fn lemma_handled_prefix_of_accepted(v: MiniView)
    requires
        v.inv(),
    ensures
        v.handled.is_prefix_of(v.accepted),
{
    assert(v.accepted.subrange(0, v.handled.len() as int) =~= v.handled);
}

/// A graceful removal always runs the demon's on-vanquish hook, and runs it
/// before the removal is confirmed.
pub proof fn lemma_graceful_vanquish_before_confirm(confirm: bool)
    ensures
        closing_plan_spec(false, confirm)[0] == ClosingStep::RunVanquish,
        confirm ==> closing_plan_spec(false, confirm) == seq![
            ClosingStep::RunVanquish,
            ClosingStep::SendConfirm,
        ],
{
}

/// A killswitched removal never runs the demon's on-vanquish hook: the hook
/// is observably skipped.
pub proof fn lemma_killswitch_skips_vanquish(confirm: bool)
    ensures
        !closing_plan_spec(true, confirm).contains(ClosingStep::RunVanquish),
{
    let plan = closing_plan_spec(true, confirm);
    assert forall|k: int| 0 <= k < plan.len() implies plan[k] != ClosingStep::RunVanquish by {
        assert(plan[0] == ClosingStep::SendConfirm);
    }
}

} // verus!
