use vstd::prelude::*;

use crate::error::Error;
use crate::hell::util::lemma_push_fresh;
use crate::hell::util::lemma_remove_at;
use crate::hell::util::vec_find;

verus! {

/// Where a replica pool's task stands in its life.
#[derive(Clone, Copy, Debug, PartialEq, Eq, Structural)]
pub enum PoolPhase {
    /// Selecting over answers, the killswitch, the buffered mailbox and the
    /// instruction channel
    Running,
    /// The loop has exited; `killswitched` says whether the killswitch won,
    /// `confirm` whether a confirmation channel is held
    Closing { killswitched: bool, confirm: bool },
}

/// One load-balancing decision: hand the pending call `ticket` to replica
/// `replica`, whose `handle` run the shell spawns as its own task.
#[derive(Clone, Copy, Debug, PartialEq, Eq, Structural)]
pub struct Dispatch {
    pub replica: usize,
    pub ticket: u64,
}

/// The mathematical state of one replica pool: what [`MultipleMiniHell`]
/// looks like in contracts.
#[verifier::ext_equal]
pub struct PoolView {
    /// How many replicas the pool was built with
    pub replicas: usize,
    /// Replica indices waiting for work, oldest first
    pub idle: Seq<usize>,
    /// Replica indices whose `handle` run is in flight
    pub busy: Set<usize>,
    /// Pending calls that found no idle replica, oldest first
    pub backlog: Seq<u64>,
    pub phase: PoolPhase,
}

impl PoolView {
    /// The pool invariant: every replica index is in range and is idle or
    /// busy but never both; while the pool runs, each replica is exactly one
    /// of the two; and a call waits in the backlog only while no replica is
    /// idle.
    pub open spec fn inv(self) -> bool {
        &&& self.busy.finite()
        &&& self.idle.no_duplicates()
        &&& forall|i: int| 0 <= i < self.idle.len() ==> #[trigger] self.idle[i] < self.replicas
        &&& forall|r: usize| self.busy.contains(r) ==> r < self.replicas
        &&& forall|i: int| 0 <= i < self.idle.len() ==> !self.busy.contains(#[trigger] self.idle[i])
        &&& self.phase is Running ==> self.idle.len() + self.busy.len() == self.replicas
        &&& self.backlog.len() > 0 ==> self.idle.len() == 0
    }
}

/// Structure that holds a pool of demon replicas behind one address, and
/// the load-balancing state of the task that owns them.
///
/// A new call goes to the oldest idle replica, or to the back of an
/// unbounded backlog when every replica is busy; a replica coming back from
/// a `handle` run picks the oldest backlogged call at once (bypassing the
/// idle queue) or rejoins the idle queue. As in [`crate::MiniHell`], a
/// pending call is named by a `ticket` and the runtime shell keeps the
/// pairing from ticket to reply channel and payload.
pub struct MultipleMiniHell {
    replicas: usize,
    idle: Vec<usize>,
    busy: Vec<usize>,
    backlog: Vec<u64>,
    phase: PoolPhase,
}

impl View for MultipleMiniHell {
    type V = PoolView;

    closed spec fn view(&self) -> PoolView {
        PoolView {
            replicas: self.replicas,
            idle: self.idle@,
            busy: self.busy@.to_set(),
            backlog: self.backlog@,
            phase: self.phase,
        }
    }
}

impl MultipleMiniHell {
    /// Well-formedness: the busy vector holds each replica index once, and
    /// the abstract state satisfies the pool invariant.
    pub closed spec fn wf(self) -> bool {
        &&& self.busy@.no_duplicates()
        &&& self@.inv()
    }

    /// A well-formed pool satisfies the abstract invariant, so the laws
    /// stated over [`PoolView`] apply to it.
    pub proof fn lemma_wf_implies_inv(self)
        requires
            self.wf(),
        ensures
            self@.inv(),
    {
    }

    /// A fresh pool of `replicas` independently constructed demons, all
    /// idle, in index order. At least one replica is needed: with none the
    /// pool is refused with `WrongReplicas`.
    pub fn new(replicas: usize) -> (r: Result<MultipleMiniHell, Error>)
        ensures
            replicas == 0 <==> r is Err,
            r matches Err(e) ==> e is WrongReplicas,
            r matches Ok(p) ==> p.wf() && p@.replicas == replicas && p@.phase is Running
                && p@.idle == Seq::new(replicas as nat, |i: int| i as usize) && p@.busy == Set::<usize>::empty() && p@.backlog == Seq::<u64>::empty(),
    {
        if replicas == 0 {
            return Err(Error::WrongReplicas);
        }
        let mut idle: Vec<usize> = Vec::new();
        let mut i: usize = 0;
        while i < replicas
            invariant
                i <= replicas,
                idle@.len() == i,
                forall|k: int| 0 <= k < i ==> #[trigger] idle@[k] == k,
            decreases replicas - i,
        {
            idle.push(i);
            i = i + 1;
        }
        let pool = MultipleMiniHell {
            replicas,
            idle,
            busy: Vec::new(),
            backlog: Vec::new(),
            phase: PoolPhase::Running,
        };
        proof {
            assert(pool@.idle =~= Seq::new(replicas as nat, |k: int| k as usize));
            assert(pool@.busy =~= Set::<usize>::empty());
        }
        Ok(pool)
    }

    /// A message instruction arrived: it is handed to the oldest idle
    /// replica, whose `handle` run the shell spawns; with every replica
    /// busy it joins the back of the backlog instead and `None` is
    /// returned.
    pub fn accept_message(&mut self, ticket: u64) -> (r: Option<Dispatch>)
        requires
            old(self).wf(),
            old(self)@.phase is Running,
        ensures
            final(self).wf(),
            final(self)@.phase is Running,
            final(self)@.replicas == old(self)@.replicas,
            old(self)@.idle.len() > 0 ==> r == Some(
                Dispatch { replica: old(self)@.idle[0], ticket },
            ) && final(self)@.idle == old(self)@.idle.drop_first() && final(self)@.busy == old(self)@.busy.insert(old(self)@.idle[0]) && final(self)@.backlog == old(self)@.backlog,
            old(self)@.idle.len() == 0 ==> r is None && final(self)@.idle == old(self)@.idle
                && final(self)@.busy == old(self)@.busy && final(self)@.backlog == old(self)@.backlog.push(ticket),
    {
        if self.idle.len() > 0 {
            proof {
                lemma_remove_at(self.idle@, 0);
            }
            let replica = self.idle.remove(0);
            proof {
                lemma_push_fresh(self.busy@, replica);
            }
            self.busy.push(replica);
            proof {
                assert(final(self)@.idle =~= old(self)@.idle.drop_first());
                assert forall|k: int| 0 <= k < final(self)@.idle.len() implies !final(self)@.busy.contains(#[trigger] final(self)@.idle[k]) by {
                    assert(final(self)@.idle[k] == old(self)@.idle[k + 1]);
                }
            }
            Some(Dispatch { replica, ticket })
        } else {
            self.backlog.push(ticket);
            None
        }
    }

    /// A replica came back from a `handle` run: it takes the oldest
    /// backlogged call at once (staying busy), or, with the backlog empty,
    /// rejoins the back of the idle queue and `None` is returned.
    pub fn replica_done(&mut self, replica: usize) -> (r: Option<Dispatch>)
        requires
            old(self).wf(),
            old(self)@.phase is Running,
            old(self)@.busy.contains(replica),
        ensures
            final(self).wf(),
            final(self)@.phase is Running,
            final(self)@.replicas == old(self)@.replicas,
            old(self)@.backlog.len() > 0 ==> r == Some(
                Dispatch { replica, ticket: old(self)@.backlog[0] },
            ) && final(self)@.backlog == old(self)@.backlog.drop_first() && final(self)@.idle == old(self)@.idle && final(self)@.busy == old(self)@.busy,
            old(self)@.backlog.len() == 0 ==> r is None && final(self)@.busy == old(self)@.busy.remove(replica) && final(self)@.idle == old(self)@.idle.push(replica) && final(self)@.backlog == old(self)@.backlog,
    {
        if self.backlog.len() > 0 {
            let ticket = self.backlog.remove(0);
            proof {
                assert(final(self)@.backlog =~= old(self)@.backlog.drop_first());
            }
            Some(Dispatch { replica, ticket })
        } else {
            match vec_find(&self.busy, replica) {
                Some(i) => {
                    proof {
                        lemma_remove_at(self.busy@, i as int);
                    }
                    let _ = self.busy.remove(i);
                },
                None => {
                    let _: () = vstd::pervasive::unreached();
                },
            }
            proof {
                lemma_push_fresh(self.idle@, replica);
            }
            self.idle.push(replica);
            proof {
                assert forall|k: int| 0 <= k < final(self)@.idle.len() implies !final(self)@.busy.contains(#[trigger] final(self)@.idle[k]) by {
                    if k < old(self)@.idle.len() {
                        assert(final(self)@.idle[k] == old(self)@.idle[k]);
                    }
                }
            }
            None
        }
    }

    /// The killswitch fired: every in-flight `handle` run is aborted (the
    /// aborted replica indices are returned so the shell can abort their
    /// tasks) and the loop exits at once.
    pub fn killswitch(&mut self, confirm: bool) -> (aborted: Vec<usize>)
        requires
            old(self).wf(),
            old(self)@.phase is Running,
        ensures
            final(self).wf(),
            final(self)@.phase == (PoolPhase::Closing { killswitched: true, confirm }),
            aborted@.to_set() == old(self)@.busy,
            aborted@.no_duplicates(),
            final(self)@.busy == Set::<usize>::empty(),
            final(self)@.idle == old(self)@.idle,
            final(self)@.backlog == old(self)@.backlog,
            final(self)@.replicas == old(self)@.replicas,
    {
        let mut aborted: Vec<usize> = Vec::new();
        core::mem::swap(&mut aborted, &mut self.busy);
        self.phase = PoolPhase::Closing { killswitched: true, confirm };
        proof {
            assert(final(self)@.busy =~= Set::<usize>::empty());
        }
        aborted
    }

    /// A graceful shutdown instruction arrived (or every channel to the
    /// pool closed, in which case no confirmation channel is held): the
    /// loop exits. Replicas whose `handle` run is still in flight stay
    /// detached and are not drained further — a deliberate reading of the
    /// shutdown protocol, see [`Self::closing_list`].
    pub fn shutdown(&mut self, confirm: bool)
        requires
            old(self).wf(),
            old(self)@.phase is Running,
        ensures
            final(self).wf(),
            final(self)@.phase == (PoolPhase::Closing { killswitched: false, confirm }),
            final(self)@.idle == old(self)@.idle,
            final(self)@.busy == old(self)@.busy,
            final(self)@.backlog == old(self)@.backlog,
            final(self)@.replicas == old(self)@.replicas,
    {
        self.phase = PoolPhase::Closing { killswitched: false, confirm };
    }

    /// The replicas whose on-vanquish hook runs after the loop exits: the
    /// ones the pool still holds directly (the idle queue), in order,
    /// whether or not the pool was killswitched. Replicas still in flight
    /// at that moment get no hook: their tasks were aborted (killswitch) or
    /// left detached (graceful shutdown).
    pub fn closing_list(&self) -> (r: &Vec<usize>)
        requires
            self@.phase is Closing,
        ensures
            r@ == self@.idle,
    {
        &self.idle
    }

    /// Whether a confirmation channel is held, to be signalled once after
    /// the hooks of [`Self::closing_list`] have run.
    pub fn confirm_needed(&self) -> (c: bool)
        requires
            self@.phase is Closing,
        ensures
            c == self@.phase->confirm,
    {
        match self.phase {
            PoolPhase::Closing { confirm, .. } => confirm,
            _ => vstd::pervasive::unreached(),
        }
    }
}

/// Load balancing never lets work wait while capacity is free: no reachable
/// pool state holds a backlogged call and an idle replica at once.
pub proof fn lemma_no_waiting_with_idle_replica(v: PoolView)
    requires
        v.inv(),
        v.backlog.len() > 0,
    ensures
        v.idle.len() == 0,
{
}

} // verus!
