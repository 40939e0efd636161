use vstd::prelude::*;

verus! {

/// The two outcomes of one poll attempt on a computation.
///
/// `Ready` means the computation has completed and must not be polled again;
/// `Pending` means it could not finish this step and expects to be polled
/// again later.
#[derive(Clone, Copy, Debug, PartialEq, Eq, Structural)]
pub enum PollResult {
    Ready,
    Pending,
}

} // verus!
