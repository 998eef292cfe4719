//! Reference-counted shared ownership with runtime-checked mutation.

use core::cell::Ref;
use core::cell::RefCell;
use core::cell::RefMut;
use std::rc::Rc;
use vstd::prelude::*;

verus! {

#[verifier::external_type_specification]
#[verifier::external_body]
#[verifier::reject_recursive_types(T)]
pub struct ExRefCell<T: ?Sized>(RefCell<T>);

#[verifier::external_type_specification]
#[verifier::external_body]
#[verifier::reject_recursive_types(T)]
pub struct ExRef<'b, T: ?Sized>(Ref<'b, T>);

#[verifier::external_type_specification]
#[verifier::external_body]
#[verifier::reject_recursive_types(T)]
pub struct ExRefMut<'b, T: ?Sized + 'b>(RefMut<'b, T>);

/// Relies on `RefCell::new`: the value is moved into a fresh, unborrowed
/// cell. The cell is opaque here — its contents can later change through
/// any handle that shares it, so no clause ties the cell to the value.
#[verifier::external_body]
fn cell_new<T>(value: T) -> (result: RefCell<T>) {
    RefCell::new(value)
}

/// Relies on `RefCell::try_borrow`: a read guard is granted if and only if
/// no write guard on this cell is outstanding; it never panics.
#[verifier::external_body]
fn cell_try_borrow<'a, T>(cell: &'a RefCell<T>) -> (result: Option<Ref<'a, T>>) {
    match cell.try_borrow() {
        Ok(guard) => Some(guard),
        Err(_) => None,
    }
}

/// Relies on `RefCell::try_borrow_mut`: a write guard is granted if and
/// only if no guard of either kind on this cell is outstanding; it never
/// panics.
#[verifier::external_body]
fn cell_try_borrow_mut<'a, T>(cell: &'a RefCell<T>) -> (result: Option<RefMut<'a, T>>) {
    match cell.try_borrow_mut() {
        Ok(guard) => Some(guard),
        Err(_) => None,
    }
}

/// A mutable version of [`crate::ProcessOwned`].
///
/// The handle shares a single runtime-checked cell among all of its clones:
/// a write through any handle is read through every other handle, because
/// they alias one storage cell rather than holding copies. Mutable access
/// is gated by the guard discipline that [`crate::BorrowTracker`] states:
/// any number of read guards, or one write guard, may be outstanding at a
/// time, and a violating request is refused as a recoverable error rather
/// than honoured.
///
/// As with [`crate::ProcessOwned`], the owner count is not atomic and all
/// handles of one value must stay on a single thread of control.
#[derive(Debug)]
#[verifier::reject_recursive_types(T)]
pub struct ProcessOwnedMut<T> {
    value: Rc<RefCell<T>>,
}

impl<T> ProcessOwnedMut<T> {
    /// The storage cell this handle shares. Equality of cells is identity
    /// of the storage, never a comparison of contents: two handles with
    /// equal storage alias one another.
    pub closed spec fn storage(&self) -> RefCell<T> {
        *self.value
    }

    /// Create a new `ProcessOwnedMut` value.
    ///
    /// The value is moved into a fresh unborrowed cell and the returned
    /// handle is its single owner. The cell's contents may change through
    /// any later clone of the handle, so the handle is related to the value
    /// only until the first write.
    pub fn new(value: T) -> (result: Self) {
        ProcessOwnedMut { value: Rc::new(cell_new(value)) }
    }

    /// Request a scoped read-only accessor for the shared value.
    ///
    /// The guard is granted unless a write guard on the same storage is
    /// outstanding; any number of read guards may coexist. The refusal is
    /// reported as `None` rather than trapping, and the guard gives its
    /// access back when it goes out of scope.
    pub fn borrow<'a>(&'a self) -> (result: Option<Ref<'a, T>>) {
        cell_try_borrow(&*self.value)
    }

    /// Request a scoped exclusive accessor for the shared value.
    ///
    /// The guard is granted only while no guard of either kind — from this
    /// handle or from any clone sharing the storage — is outstanding. A
    /// violating request is refused with `None`, never silently honoured,
    /// and the guard gives its access back when it goes out of scope.
    pub fn borrow_mut<'a>(&'a self) -> (result: Option<RefMut<'a, T>>) {
        cell_try_borrow_mut(&*self.value)
    }
}

impl<T> Clone for ProcessOwnedMut<T> {
    /// Add one owner: the new handle aliases the same storage cell, so a
    /// write through either handle is read through both.
    fn clone(&self) -> (result: Self)
        ensures
            result.storage() == self.storage(),
    {
        ProcessOwnedMut { value: crate::shared::rc_duplicate(&self.value) }
    }
}

} // verus!
