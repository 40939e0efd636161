use vstd::prelude::*;

use crate::computation::becomes_ready_in;
use crate::computation::eventually_ready;
use crate::computation::Computation;
use crate::handle::ResumeHandle;
use crate::handle::RunnerIdentity;
use crate::poll::PollResult;

verus! {

/// A computation that reports pending a fixed number of times and then
/// reports ready, without ever touching its resume handle.
pub struct Countdown {
    pub pending_left: u64,
}

impl Computation for Countdown {
    open spec fn ready_now(&self) -> bool {
        self.pending_left == 0
    }

    open spec fn advanced(&self) -> Self {
        Countdown { pending_left: (self.pending_left - 1) as u64 }
    }

    fn poll(&mut self, _identity: &mut RunnerIdentity, _handle: &ResumeHandle) -> (outcome:
        PollResult) {
        if self.pending_left == 0 {
            PollResult::Ready
        } else {
            self.pending_left = self.pending_left - 1;
            PollResult::Pending
        }
    }
}

/// Like [`Countdown`], but every pending poll clones the resume handle it
/// was given and releases the clone again before returning, the way a
/// computation registers itself for a later wake and then withdraws the
/// registration. Each poll is therefore balanced on the reference count.
pub struct RegisteringCountdown {
    pub pending_left: u64,
}

impl Computation for RegisteringCountdown {
    open spec fn ready_now(&self) -> bool {
        self.pending_left == 0
    }

    open spec fn advanced(&self) -> Self {
        RegisteringCountdown { pending_left: (self.pending_left - 1) as u64 }
    }

    fn poll(&mut self, identity: &mut RunnerIdentity, handle: &ResumeHandle) -> (outcome:
        PollResult) {
        if self.pending_left == 0 {
            PollResult::Ready
        } else {
            let registered = identity.clone_handle(handle);
            identity.drop_handle(registered);
            self.pending_left = self.pending_left - 1;
            PollResult::Pending
        }
    }
}

/// A computation that reports pending on every poll and never completes.
///
/// It satisfies the polling contract — every poll is balanced and leaves
/// the state where it was — but no number of polls reaches ready, which
/// [`lemma_never_ready_is_never_eventually_ready`] proves. The runner's
/// drive loop therefore refuses it by contract: driving it would spin the
/// calling thread forever.
pub struct NeverReady {}

impl Computation for NeverReady {
    open spec fn ready_now(&self) -> bool {
        false
    }

    open spec fn advanced(&self) -> Self {
        NeverReady {}
    }

    fn poll(&mut self, _identity: &mut RunnerIdentity, _handle: &ResumeHandle) -> (outcome:
        PollResult) {
        PollResult::Pending
    }
}

/// A countdown starting at `pending` reports pending exactly `pending`
/// times before reporting ready.
pub proof fn lemma_countdown_becomes_ready(pending: u64)
    ensures
        becomes_ready_in(Countdown { pending_left: pending }, pending as nat),
    decreases pending,
{
    if pending > 0 {
        lemma_countdown_becomes_ready((pending - 1) as u64);
    }
}

/// A registering countdown starting at `pending` reports pending exactly
/// `pending` times before reporting ready.
pub proof fn lemma_registering_countdown_becomes_ready(pending: u64)
    ensures
        becomes_ready_in(RegisteringCountdown { pending_left: pending }, pending as nat),
    decreases pending,
{
    if pending > 0 {
        lemma_registering_countdown_becomes_ready((pending - 1) as u64);
    }
}

/// No number of pending polls brings [`NeverReady`] to ready.
pub proof fn lemma_never_ready_never_becomes_ready(pending: nat)
    ensures
        !becomes_ready_in(NeverReady {}, pending),
    decreases pending,
{
    if pending > 0 {
        lemma_never_ready_never_becomes_ready((pending - 1) as nat);
    }
}

/// Law: a computation that always reports pending is not eventually ready,
/// so the runner's drive loop refuses it by contract rather than spinning
/// the calling thread forever.
pub proof fn lemma_never_ready_is_never_eventually_ready()
    ensures
        !eventually_ready(NeverReady {}),
{
    assert forall|pending: nat| !becomes_ready_in(NeverReady {}, pending) by {
        lemma_never_ready_never_becomes_ready(pending);
    }
}

} // verus!
