//! `RcCell<T>`: a single-threaded shared handle to a cell whose borrows
//! are checked at run time.
//!
//! A handle dereferences to the `Rc<RefCell<T>>` it wraps, so `borrow`,
//! `borrow_mut` and the rest of that type are called on the handle itself.

use core::cell::RefCell;
use core::ops::{Deref, DerefMut};
use std::rc::Rc;
use vstd::prelude::*;

verus! {

/// `core::cell::RefCell`. In specifications a cell stands for its identity:
/// two cells are equal when they are the same cell, whatever they hold.
#[verifier::external_type_specification]
#[verifier::external_body]
#[verifier::reject_recursive_types(T)]
pub struct ExRefCell<T: ?Sized>(RefCell<T>);

/// `RefCell::new`. Nothing is claimed of the returned cell: what a cell
/// holds can change behind a shared reference, so it is no part of the
/// cell's value.
pub assume_specification<T>[ RefCell::<T>::new ](value: T) -> (cell: RefCell<T>)
;

/// `cell` is a cell that `RefCell::new` returns when it is handed `x`: the
/// cell was made around `x`. This speaks of the making of the cell, not of
/// what the cell holds at any later time.
pub open spec fn made_around<T>(cell: RefCell<T>, x: T) -> bool {
    call_ensures(RefCell::<T>::new, (x,), cell)
}

/// `Rc::clone`: the returned pointer points to the same allocation as
/// `rc`, and so to the same cell.
#[verifier::external_body]
fn clone_rc<T>(rc: &Rc<RefCell<T>>) -> (res: Rc<RefCell<T>>)
    ensures
        res == *rc,
{
    Rc::clone(rc)
}

/// A handle that shares ownership of one run-time borrow-checked cell.
///
/// Handles cannot cross a thread boundary. The cell and the value in it
/// live until the last handle is dropped.
#[verifier::reject_recursive_types(T)]
pub struct RcCell<T> {
    ptr: Rc<RefCell<T>>,
}

impl<T> View for RcCell<T> {
    type V = RefCell<T>;

    /// The cell that this handle refers to. Handles with equal views share
    /// one cell: a write made through either is read through the other.
    closed spec fn view(&self) -> RefCell<T> {
        *self.ptr
    }
}

impl<T> RcCell<T> {
    /// Wraps `x` in a new cell and returns the first handle to it: the
    /// handle's cell is one that `RefCell::new` made around `x`.
    pub fn new(x: T) -> (r: RcCell<T>)
        ensures
            made_around(r@, x),
    {
        RcCell { ptr: Rc::new(RefCell::new(x)) }
    }
}

impl<T> Clone for RcCell<T> {
    /// Another handle to the same cell. The value inside is not copied, so
    /// `T` need not be `Clone`.
    fn clone(&self) -> (r: RcCell<T>)
        ensures
            r@ == self@,
    {
        RcCell { ptr: clone_rc(&self.ptr) }
    }
}

impl<T> Deref for RcCell<T> {
    type Target = Rc<RefCell<T>>;

    /// The shared pointer to this handle's cell.
    fn deref(&self) -> (r: &Rc<RefCell<T>>)
        ensures
            **r == self@,
    {
        &self.ptr
    }
}

impl<T> DerefMut for RcCell<T> {
    /// The shared pointer itself, for the caller to use or replace. The
    /// handle refers afterwards to the cell of whatever pointer is left
    /// there.
    fn deref_mut(&mut self) -> (r: &mut Rc<RefCell<T>>)
        ensures
            **r == old(self)@,
            final(self)@ == **final(r),
    {
        &mut self.ptr
    }
}

} // verus!
