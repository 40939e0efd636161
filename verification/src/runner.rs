use vstd::prelude::*;

use crate::computation::becomes_ready_in;
use crate::computation::eventually_ready;
use crate::computation::Computation;
use crate::handle::refs_after_acquire;
use crate::handle::refs_after_release;
use crate::handle::ResumeHandle;
use crate::handle::RunnerIdentity;
use crate::poll::PollResult;

verus! {

/// A minimal task executor that runs a single computation to completion.
///
/// The executor owns a slot holding the computation until it completes —
/// the slot is emptied the moment a poll reports ready — together with the
/// runner identity that every resume handle counts against. Two ghost
/// counters record how many polls and how many consuming wakes this
/// executor has performed, so the contracts can speak of them exactly.
pub struct MiniExecutor<C: Computation> {
    slot: Option<C>,
    identity: RunnerIdentity,
    polls: Ghost<nat>,
    wakes: Ghost<nat>,
}

impl<C: Computation> MiniExecutor<C> {
    /// Whether the computation has already completed and left the slot.
    pub closed spec fn done(self) -> bool {
        self.slot is None
    }

    /// The computation still waiting in the slot.
    pub closed spec fn computation(self) -> C
        recommends
            !self.done(),
    {
        self.slot->Some_0
    }

    /// The strong reference count of this runner's identity.
    pub closed spec fn refs(self) -> u64 {
        self.identity.refs()
    }

    /// How many polls this executor has performed.
    pub closed spec fn polls(self) -> nat {
        self.polls@
    }

    /// How many consuming wakes this executor has performed.
    pub closed spec fn wakes(self) -> nat {
        self.wakes@
    }

    /// Well-formedness: the identity always holds at least the runner's own
    /// root reference.
    pub open spec fn wf(self) -> bool {
        self.refs() >= 1
    }

    /// Create a new executor around the given computation.
    ///
    /// The computation is moved into the slot; nothing is polled yet, and
    /// the identity holds exactly the runner's root reference.
    pub fn new(computation: C) -> (executor: MiniExecutor<C>)
        ensures
            executor.wf(),
            !executor.done(),
            executor.computation() == computation,
            executor.refs() == 1,
            executor.polls() == 0,
            executor.wakes() == 0,
    {
        MiniExecutor {
            slot: Some(computation),
            identity: RunnerIdentity::root(),
            polls: Ghost(0),
            wakes: Ghost(0),
        }
    }

    /// Run the executor to completion.
    ///
    /// Constructs one resume handle for the drive loop, then polls the
    /// computation until it reports ready, treating every pending report as
    /// an immediate retry. The caller must hand in a computation that
    /// reports ready after finitely many pending polls — the
    /// `eventually_ready` clause — which is what lets the busy-retry loop
    /// be proved to stop. When the slot is already empty the loop exits at
    /// once without polling, so running a second time after completion is a
    /// no-op. The loop's handle is released before returning, so the
    /// reference count ends where it began — it only needs headroom for
    /// that one handle plus whatever a poll clones — and the runner itself
    /// never invokes the consuming wake operation.
    pub fn run(&mut self)
        requires
            old(self).wf(),
            old(self).refs() + 1 < u64::MAX,
            !old(self).done() ==> eventually_ready(old(self).computation()),
        ensures
            final(self).wf(),
            final(self).done(),
            final(self).refs() == old(self).refs(),
            final(self).wakes() == old(self).wakes(),
            old(self).done() ==> final(self).polls() == old(self).polls(),
            !old(self).done() ==> forall|pending: nat|
                #[trigger] becomes_ready_in(old(self).computation(), pending)
                    ==> final(self).polls() == old(self).polls() + pending + 1,
            !old(self).done() && old(self).computation().ready_now()
                ==> final(self).polls() == old(self).polls() + 1,
    {
        let handle = self.identity.construct_handle();
        let ghost total: nat = if old(self).slot is Some {
            choose|pending: nat| becomes_ready_in(old(self).slot->Some_0, pending)
        } else {
            0
        };
        loop
            invariant
                self.identity.refs() == old(self).refs() + 1,
                old(self).refs() >= 1,
                old(self).refs() + 1 < u64::MAX,
                self.wakes@ == old(self).wakes@,
                old(self).slot is None ==> self.slot is None && self.polls@ == old(self).polls@,
                old(self).slot is Some ==> becomes_ready_in(old(self).slot->Some_0, total),
                old(self).slot is Some && self.slot is Some ==> self.polls@ >= old(self).polls@
                    && self.polls@ <= old(self).polls@ + total
                    && forall|pending: nat|
                    #[trigger] becomes_ready_in(old(self).slot->Some_0, pending) ==> pending + old(
                        self,
                    ).polls@ >= self.polls@ && becomes_ready_in(
                        self.slot->Some_0,
                        ((pending + old(self).polls@) - self.polls@) as nat,
                    ),
                old(self).slot is Some && self.slot is None ==> forall|pending: nat|
                    #[trigger] becomes_ready_in(old(self).slot->Some_0, pending) ==> self.polls@
                        == old(self).polls@ + pending + 1,
            ensures
                self.slot is None,
                self.identity.refs() == old(self).refs() + 1,
                self.wakes@ == old(self).wakes@,
                old(self).slot is None ==> self.polls@ == old(self).polls@,
                old(self).slot is Some ==> forall|pending: nat|
                    #[trigger] becomes_ready_in(old(self).slot->Some_0, pending) ==> self.polls@
                        == old(self).polls@ + pending + 1,
            decreases (old(self).polls@ + total + 1) - self.polls@,
        {
            match self.slot.take() {
                None => {
                    break ;
                },
                Some(mut computation) => {
                    let ghost before = computation;
                    let ghost polled_so_far = self.polls@;
                    let outcome = computation.poll(&mut self.identity, &handle);
                    self.polls = Ghost(self.polls@ + 1);
                    match outcome {
                        PollResult::Ready => {
                            proof {
                                assert forall|pending: nat|
                                    #[trigger] becomes_ready_in(
                                        old(self).slot->Some_0,
                                        pending,
                                    ) implies self.polls@ == old(self).polls@ + pending + 1 by {
                                    let left = ((pending + old(self).polls@)
                                        - polled_so_far) as nat;
                                    assert(becomes_ready_in(before, left));
                                    assert(left == 0);
                                }
                            }
                            break ;
                        },
                        PollResult::Pending => {
                            proof {
                                assert forall|pending: nat|
                                    #[trigger] becomes_ready_in(
                                        old(self).slot->Some_0,
                                        pending,
                                    ) implies pending + old(self).polls@ >= self.polls@
                                    && becomes_ready_in(
                                        computation,
                                        ((pending + old(self).polls@) - self.polls@) as nat,
                                    ) by {
                                    let left = ((pending + old(self).polls@)
                                        - polled_so_far) as nat;
                                    assert(becomes_ready_in(before, left));
                                }
                            }
                            self.slot = Some(computation);
                        },
                    }
                },
            }
        }
        self.identity.drop_handle(handle);
    }

    /// Consume a resume handle and drive the executor to completion.
    ///
    /// This is the consuming wake operation of the handle protocol: it runs
    /// the drive loop once and then gives up the handle's reference, so its
    /// net effect on the reference count is exactly minus one. The count on
    /// entry is at least two: the runner's root reference plus the unit
    /// owned by the handle being consumed.
    pub fn wake(&mut self, handle: ResumeHandle)
        requires
            old(self).wf(),
            old(self).refs() >= 2,
            old(self).refs() + 1 < u64::MAX,
            !old(self).done() ==> eventually_ready(old(self).computation()),
        ensures
            final(self).wf(),
            final(self).done(),
            final(self).refs() == refs_after_release(old(self).refs()),
            final(self).wakes() == old(self).wakes() + 1,
            old(self).done() ==> final(self).polls() == old(self).polls(),
            !old(self).done() ==> forall|pending: nat|
                #[trigger] becomes_ready_in(old(self).computation(), pending)
                    ==> final(self).polls() == old(self).polls() + pending + 1,
    {
        self.wakes = Ghost(self.wakes@ + 1);
        self.run();
        self.identity.drop_handle(handle);
    }

    /// Wake by reference: a documented no-op, forwarded to the identity.
    ///
    /// See [`RunnerIdentity::wake_by_ref`]: in this single-task design every
    /// real wake path is the consuming [`MiniExecutor::wake`], so waking by
    /// reference drives nothing and leaves the reference count alone.
    pub fn wake_by_ref(&self, handle: &ResumeHandle) {
        self.identity.wake_by_ref(handle);
    }

    /// Construct a resume handle bound to this runner's identity.
    ///
    /// The new handle owns one strong reference; nothing else about the
    /// executor changes, and nothing is polled.
    pub fn make_handle(&mut self) -> (handle: ResumeHandle)
        requires
            old(self).wf(),
            old(self).refs() < u64::MAX,
        ensures
            final(self).wf(),
            final(self).refs() == refs_after_acquire(old(self).refs()),
            final(self).done() == old(self).done(),
            !old(self).done() ==> final(self).computation() == old(self).computation(),
            final(self).polls() == old(self).polls(),
            final(self).wakes() == old(self).wakes(),
    {
        self.identity.construct_handle()
    }

    /// Clone a resume handle bound to this runner's identity.
    ///
    /// The original is only read; the clone owns a strong reference of its
    /// own, so the count rises by one and nothing else changes.
    pub fn clone_handle(&mut self, original: &ResumeHandle) -> (clone: ResumeHandle)
        requires
            old(self).wf(),
            old(self).refs() >= 2,
            old(self).refs() < u64::MAX,
        ensures
            final(self).wf(),
            final(self).refs() == refs_after_acquire(old(self).refs()),
            final(self).done() == old(self).done(),
            !old(self).done() ==> final(self).computation() == old(self).computation(),
            final(self).polls() == old(self).polls(),
            final(self).wakes() == old(self).wakes(),
    {
        self.identity.clone_handle(original)
    }

    /// Release a resume handle without driving any progress.
    ///
    /// Consumes the handle and gives back its reference: the count falls by
    /// one and nothing else changes.
    pub fn release_handle(&mut self, handle: ResumeHandle)
        requires
            old(self).wf(),
            old(self).refs() >= 2,
        ensures
            final(self).wf(),
            final(self).refs() == refs_after_release(old(self).refs()),
            final(self).done() == old(self).done(),
            !old(self).done() ==> final(self).computation() == old(self).computation(),
            final(self).polls() == old(self).polls(),
            final(self).wakes() == old(self).wakes(),
    {
        self.identity.drop_handle(handle);
    }

    /// Whether the computation has already completed.
    pub fn is_done(&self) -> (done: bool)
        ensures
            done == self.done(),
    {
        self.slot.is_none()
    }

    /// The current strong reference count of this runner's identity.
    pub fn handle_refs(&self) -> (refs: u64)
        ensures
            refs == self.refs(),
    {
        self.identity.current_refs()
    }
}

} // verus!
