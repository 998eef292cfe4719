//! Values that are allocated once and never freed.

use vstd::prelude::*;

verus! {

/// A value that is truly owned by the process itself.
///
/// The value is moved into heap storage that is deliberately never
/// reclaimed, so every handle — and every reference obtained from one —
/// stays valid for the remainder of the process. This trades a bounded,
/// intentional leak for shared access without any ownership bookkeeping.
#[derive(Debug)]
pub struct Immortal<T: 'static> {
    value: &'static T,
}

/// Relies on `Box::leak`: the boxed allocation is released from ownership
/// and never freed afterwards, and the returned reference points at the
/// boxed value for the rest of the process.
#[verifier::external_body]
fn leak_box<T>(boxed: Box<T>) -> (result: &'static T)
    ensures
        *result == *boxed,
{
    Box::leak(boxed)
}

impl<T> Immortal<T> {
    /// Creates a new `Immortal` value.
    ///
    /// The value is moved into storage that is never reclaimed; the caller
    /// accepts that each call leaks one allocation for the rest of the
    /// process.
    pub fn new(value: T) -> (result: Self)
        ensures
            result@ == value,
    {
        Immortal { value: leak_box(Box::new(value)) }
    }
}

impl<T> View for Immortal<T> {
    type V = T;

    /// A handle stands for the never-freed value it points at.
    closed spec fn view(&self) -> T {
        *self.value
    }
}

impl<T> Clone for Immortal<T> {
    /// Duplicate the handle, not the allocation: both handles point at the
    /// same never-freed storage.
    fn clone(&self) -> (result: Self)
        ensures
            result == *self,
    {
        Immortal { value: self.value }
    }
}

impl<T> core::ops::Deref for Immortal<T> {
    type Target = T;

    /// Read the value; the reference stays valid for the remainder of the
    /// process because the storage is never freed.
    fn deref(&self) -> (result: &T)
        ensures
            *result == self@,
    {
        self.value
    }
}

impl<T> Immortal<T> {
    /// Give up the wrapper's type discipline and keep only the bare
    /// reference. The reference is still valid for the remainder of the
    /// process, since nothing ever frees the storage; past this point the
    /// caller alone is responsible for how it is used.
    pub fn into_static(self) -> (result: &'static T)
        ensures
            *result == self@,
    {
        self.value
    }
}

} // verus!
