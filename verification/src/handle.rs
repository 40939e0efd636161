use vstd::prelude::*;

verus! {

/// One resume handle bound to a runner identity.
///
/// A handle is a linear value: it stands for exactly one logical ownership
/// unit of the identity's reference count. It is created only by
/// [`RunnerIdentity::construct_handle`] and [`RunnerIdentity::clone_handle`],
/// which account for that unit, and it is given up only by
/// [`RunnerIdentity::drop_handle`] or by the runner's consuming wake
/// operation, which release it. It deliberately implements neither `Clone`
/// nor `Copy`, so the type system enforces the one-unit-per-handle
/// discipline.
pub struct ResumeHandle {
    handle_unit: (),
}

/// The shared control block of one runner, reduced to what the wake protocol
/// reads of it: the strong reference count.
///
/// The count starts at one (the runner's own root reference) and rises by one
/// for every live resume handle. The computation slot itself lives in the
/// runner; the identity records only how many owners the control block has.
pub struct RunnerIdentity {
    strong: u64,
}

/// The reference count after one handle is constructed or cloned.
pub open spec fn refs_after_acquire(refs: u64) -> u64
    recommends
        refs < u64::MAX,
{
    (refs + 1) as u64
}

/// The reference count after one handle is released.
pub open spec fn refs_after_release(refs: u64) -> u64
    recommends
        refs >= 1,
{
    (refs - 1) as u64
}

impl RunnerIdentity {
    /// The current strong reference count of this identity.
    pub closed spec fn refs(self) -> u64 {
        self.strong
    }

    /// A fresh identity holding only the runner's root reference.
    pub fn root() -> (identity: RunnerIdentity)
        ensures
            identity.refs() == 1,
    {
        RunnerIdentity { strong: 1 }
    }

    /// Construct a new resume handle bound to this identity.
    ///
    /// The new handle owns one strong reference, so the count rises by one.
    /// No polling happens here.
    pub fn construct_handle(&mut self) -> (handle: ResumeHandle)
        requires
            old(self).refs() >= 1,
            old(self).refs() < u64::MAX,
        ensures
            final(self).refs() == refs_after_acquire(old(self).refs()),
    {
        self.strong = self.strong + 1;
        ResumeHandle { handle_unit: () }
    }

    /// Clone an existing resume handle.
    ///
    /// The original handle is only read, never consumed; the clone owns a
    /// strong reference of its own, so the count rises by one. The count is
    /// at least two on entry: the runner's root reference plus the original
    /// handle's unit.
    pub fn clone_handle(&mut self, _original: &ResumeHandle) -> (clone: ResumeHandle)
        requires
            old(self).refs() >= 2,
            old(self).refs() < u64::MAX,
        ensures
            final(self).refs() == refs_after_acquire(old(self).refs()),
    {
        self.strong = self.strong + 1;
        ResumeHandle { handle_unit: () }
    }

    /// Wake by reference: a documented no-op in this single-task design.
    ///
    /// Every real wake path goes through the consuming wake operation of the
    /// runner, so waking by reference neither drives the computation nor
    /// touches the reference count. A computation that relies on
    /// wake-by-reference scheduling future progress loses that notification
    /// here; that is a known limitation of the design, not an oversight.
    pub fn wake_by_ref(&self, _handle: &ResumeHandle) {
    }

    /// Release a resume handle without driving any progress.
    ///
    /// Consumes the handle and gives back its one strong reference, so the
    /// count falls by one. The count is at least two on entry: the runner's
    /// root reference plus the unit owned by the handle being released.
    pub fn drop_handle(&mut self, _handle: ResumeHandle)
        requires
            old(self).refs() >= 2,
        ensures
            final(self).refs() == refs_after_release(old(self).refs()),
    {
        self.strong = self.strong - 1;
    }

    /// Read the current strong reference count.
    pub fn current_refs(&self) -> (refs: u64)
        ensures
            refs == self.refs(),
    {
        self.strong
    }
}

/// Law: clone and release are exact inverses on the reference count.
///
/// Cloning a handle and then releasing the clone restores the count to what
/// it was before the clone; and releasing both the clone and the original
/// leaves exactly the count that releasing the original alone would have
/// left. So a clone/release pair is invisible to the runner identity.
pub proof fn lemma_clone_release_count_inverse(refs: u64)
    requires
        refs >= 2,
        refs < u64::MAX,
    ensures
        refs_after_release(refs_after_acquire(refs)) == refs,
        refs_after_release(refs_after_release(refs_after_acquire(refs))) == refs_after_release(
            refs,
        ),
{
}

} // verus!
