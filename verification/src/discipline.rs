//! The guard discipline that gates mutable access to shared storage.
//!
//! [`crate::ProcessOwnedMut`] hands out scoped read and write guards for one
//! storage cell shared by all clones of a handle. The rule that makes this
//! safe on a single thread of control is stated and proved here on an
//! explicit tracker of outstanding guards: any number of read guards may be
//! outstanding at once, a write guard only alone, and a request that would
//! break the rule is refused rather than honoured.

use vstd::prelude::*;

verus! {

/// Bookkeeping of the guards outstanding on one shared storage cell: how
/// many read guards are out, and whether a write guard is out.
///
/// Acquiring a guard records it here and releasing a guard clears it, so
/// the tracker always describes the accesses that are still live. The
/// acquire operations refuse any request that the discipline forbids, which
/// is how an aliasing bug — say, a re-entrant mutation through a second
/// handle held further down the same call stack — surfaces as a refusal
/// instead of two live paths to one value.
#[derive(Clone, Copy, Debug, PartialEq, Eq, Structural)]
pub struct BorrowTracker {
    readers: usize,
    writing: bool,
}

impl BorrowTracker {
    /// How many read guards are outstanding.
    pub closed spec fn readers(&self) -> nat {
        self.readers as nat
    }

    /// Whether a write guard is outstanding.
    pub closed spec fn writing(&self) -> bool {
        self.writing
    }

    /// A write guard never coexists with any other guard.
    pub open spec fn wf(&self) -> bool {
        self.writing() ==> self.readers() == 0
    }

    /// No guard of either kind is outstanding.
    pub open spec fn idle(&self) -> bool {
        !self.writing() && self.readers() == 0
    }

    /// A fresh cell has no outstanding guards.
    pub fn new() -> (result: Self)
        ensures
            result.wf(),
            result.idle(),
    {
        BorrowTracker { readers: 0, writing: false }
    }

    /// Request a read guard.
    ///
    /// The guard is granted if and only if no write guard is outstanding
    /// and the reader count has room; any number of read guards may
    /// coexist. A refused request leaves the tracker unchanged.
    pub fn try_acquire_read(&mut self) -> (granted: bool)
        requires
            old(self).wf(),
        ensures
            final(self).wf(),
            granted <==> !old(self).writing() && old(self).readers() < usize::MAX,
            granted ==> final(self).readers() == old(self).readers() + 1,
            final(self).writing() == old(self).writing(),
            !granted ==> *final(self) == *old(self),
    {
        if !self.writing && self.readers < usize::MAX {
            self.readers = self.readers + 1;
            true
        } else {
            false
        }
    }

    /// Request a write guard.
    ///
    /// The guard is granted if and only if no guard of either kind is
    /// outstanding: while any read or write guard is live, a further write
    /// request is refused, never silently honoured. A refused request
    /// leaves the tracker unchanged.
    pub fn try_acquire_write(&mut self) -> (granted: bool)
        requires
            old(self).wf(),
        ensures
            final(self).wf(),
            granted <==> old(self).idle(),
            granted ==> final(self).writing(),
            final(self).readers() == old(self).readers(),
            !granted ==> *final(self) == *old(self),
    {
        if !self.writing && self.readers == 0 {
            self.writing = true;
            true
        } else {
            false
        }
    }

    /// Release one outstanding read guard.
    pub fn release_read(&mut self)
        requires
            old(self).wf(),
            old(self).readers() >= 1,
        ensures
            final(self).wf(),
            final(self).readers() == old(self).readers() - 1,
            final(self).writing() == old(self).writing(),
    {
        self.readers = self.readers - 1;
    }

    /// Release the outstanding write guard, restoring the storage to an
    /// un-borrowed state.
    pub fn release_write(&mut self)
        requires
            old(self).wf(),
            old(self).writing(),
        ensures
            final(self).wf(),
            final(self).idle(),
    {
        self.writing = false;
    }
}

} // verus!
