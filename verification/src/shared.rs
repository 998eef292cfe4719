//! Read-only, reference-counted shared ownership.

use std::rc::Rc;
use vstd::prelude::*;

verus! {

/// A value that is owned by the process itself.
///
/// The lifetime of the stored value is tied to its owners: every clone of a
/// handle is a further owner, and the value is dropped exactly when the last
/// owner goes out of scope. The handle offers read access only; see
/// [`crate::ProcessOwnedMut`] for the variant with mutable access.
///
/// The owner count is not atomic, so all handles of one value must stay on a
/// single thread of control.
#[derive(Debug)]
pub struct ProcessOwned<T> {
    value: Rc<T>,
}

impl<T> View for ProcessOwned<T> {
    type V = T;

    /// A handle stands for the value it shares.
    closed spec fn view(&self) -> T {
        *self.value
    }
}

/// Relies on `Rc::clone`: the returned handle points at the same allocation
/// as the argument, so it carries the same value; only the owner count of
/// that allocation changes.
#[verifier::external_body]
pub(crate) fn rc_duplicate<T>(rc: &Rc<T>) -> (result: Rc<T>)
    ensures
        *result == **rc,
{
    Rc::clone(rc)
}

impl<T> ProcessOwned<T> {
    /// Create a new `ProcessOwned` value.
    ///
    /// The value is moved into freshly allocated shared storage and the
    /// returned handle is its single owner.
    pub fn new(value: T) -> (result: Self)
        ensures
            result@ == value,
    {
        ProcessOwned { value: Rc::new(value) }
    }
}

impl<T> Clone for ProcessOwned<T> {
    /// Add one owner: the new handle shares the same storage and reads the
    /// same value as `self`.
    fn clone(&self) -> (result: Self)
        ensures
            result@ == self@,
    {
        ProcessOwned { value: rc_duplicate(&self.value) }
    }
}

impl<T> core::ops::Deref for ProcessOwned<T> {
    type Target = T;

    /// Read the shared value.
    fn deref(&self) -> (result: &T)
        ensures
            *result == self@,
    {
        &*self.value
    }
}

} // verus!
