use vstd::prelude::*;

use crate::handle::ResumeHandle;
use crate::handle::RunnerIdentity;
use crate::poll::PollResult;

verus! {

/// The capability a runner drives: advance one step given a resume handle,
/// and report ready or pending.
///
/// The two spec functions give each computation a deterministic model that
/// its polls are held to: `ready_now` says whether the next poll completes,
/// and `advanced` gives the state left behind by one pending poll. A
/// computation whose `ready_now` never becomes true models work that never
/// completes; the runner's drive loop demands a computation that is
/// [`eventually_ready`], since the loop is proved to terminate.
pub trait Computation: Sized {
    /// Whether the next poll reports ready.
    spec fn ready_now(&self) -> bool;

    /// The state this computation is left in by one pending poll.
    spec fn advanced(&self) -> Self;

    /// Attempt to advance one step.
    ///
    /// The poll receives the runner identity and a resume handle held by the
    /// runner's drive loop, so it may clone handles for itself and release
    /// them again; it must leave the identity's reference count exactly as
    /// it found it. The count on entry is at least two — the runner's root
    /// reference plus the loop's handle — and below the counter's maximum,
    /// so there is room to clone.
    fn poll(&mut self, identity: &mut RunnerIdentity, handle: &ResumeHandle) -> (outcome:
        PollResult)
        requires
            old(identity).refs() >= 2,
            old(identity).refs() < u64::MAX,
        ensures
            final(identity).refs() == old(identity).refs(),
            (outcome is Ready) <==> old(self).ready_now(),
            (outcome is Pending) ==> *final(self) == old(self).advanced(),
    ;
}

/// Whether `computation` reports pending exactly `pending_polls` times and
/// then reports ready, under the model given by its `ready_now` and
/// `advanced` functions.
pub open spec fn becomes_ready_in<C: Computation>(computation: C, pending_polls: nat) -> bool
    decreases pending_polls,
{
    if computation.ready_now() {
        pending_polls == 0
    } else {
        pending_polls > 0 && becomes_ready_in(computation.advanced(), (pending_polls - 1) as nat)
    }
}

/// Whether the computation reports ready after some finite number of
/// pending polls.
pub open spec fn eventually_ready<C: Computation>(computation: C) -> bool {
    exists|pending: nat| becomes_ready_in(computation, pending)
}

/// A computation reports ready after exactly one number of pending polls:
/// the model never assigns two different counts to the same state.
pub proof fn lemma_becomes_ready_in_unique<C: Computation>(computation: C, m: nat, n: nat)
    requires
        becomes_ready_in(computation, m),
        becomes_ready_in(computation, n),
    ensures
        m == n,
    decreases m,
{
    if !computation.ready_now() {
        lemma_becomes_ready_in_unique(computation.advanced(), (m - 1) as nat, (n - 1) as nat);
    }
}

} // verus!
