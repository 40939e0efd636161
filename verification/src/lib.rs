//! A minimal task executor that drives a single suspendable computation to
//! completion on the calling thread.
//!
//! The executor repeatedly polls its computation until the computation
//! reports ready, handing it a resume handle on every poll. The resume
//! handle protocol — construct, clone, wake, wake-by-reference, release —
//! is modelled over an explicit reference count on the runner's shared
//! identity, so the clone/release bookkeeping that usually hides behind a
//! type-erased pointer table is stated and checked here as contracts.

pub mod computation;
pub mod computations;
pub mod handle;
pub mod poll;
pub mod runner;

pub use computation::Computation;
pub use computations::Countdown;
pub use computations::NeverReady;
pub use computations::RegisteringCountdown;
pub use handle::ResumeHandle;
pub use handle::RunnerIdentity;
pub use poll::PollResult;
pub use runner::MiniExecutor;
