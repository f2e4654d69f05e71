//! `ArcMutex<T>`: a thread-safe shared handle to a value behind a
//! mutual-exclusion lock.
//!
//! A handle dereferences to the `Arc<Mutex<T>>` it wraps, so `lock` and the
//! rest of that type are called on the handle itself. `lock` blocks until
//! the lock is free, with no promise of fairness among waiters, and
//! reports poisoning as an error once a holder has panicked.

use core::ops::{Deref, DerefMut};
use std::sync::{Arc, Mutex};
use vstd::prelude::*;

verus! {

/// `std::sync::Mutex`. In specifications a lock stands for its identity:
/// two locks are equal when they are the same lock, whatever they guard.
#[verifier::external_type_specification]
#[verifier::external_body]
#[verifier::reject_recursive_types(T)]
pub struct ExMutex<T: ?Sized>(Mutex<T>);

/// `Mutex::new`. Nothing is claimed of the returned lock: what a lock
/// guards can change behind a shared reference, so it is no part of the
/// lock's value.
pub assume_specification<T>[ Mutex::<T>::new ](t: T) -> (lock: Mutex<T>)
;

/// `lock` is a lock that `Mutex::new` returns when it is handed `x`: the
/// lock was made around `x`. This speaks of the making of the lock, not of
/// what the lock guards at any later time.
pub open spec fn made_around<T>(lock: Mutex<T>, x: T) -> bool {
    call_ensures(Mutex::<T>::new, (x,), lock)
}

/// `Arc::clone`: the returned pointer points to the same allocation as
/// `arc`, and so to the same lock.
#[verifier::external_body]
fn clone_arc<T>(arc: &Arc<Mutex<T>>) -> (res: Arc<Mutex<T>>)
    ensures
        res == *arc,
{
    Arc::clone(arc)
}

/// A handle that shares ownership of one lock-guarded value.
///
/// Handles may be sent to other threads where `T` may. The lock and the
/// value behind it live until the last handle is dropped.
#[verifier::reject_recursive_types(T)]
pub struct ArcMutex<T> {
    ptr: Arc<Mutex<T>>,
}

impl<T> View for ArcMutex<T> {
    type V = Mutex<T>;

    /// The lock that this handle refers to. Handles with equal views share
    /// one lock: a write made under either is read under the other.
    closed spec fn view(&self) -> Mutex<T> {
        *self.ptr
    }
}

impl<T> ArcMutex<T> {
    /// Puts `x` behind a new lock and returns the first handle to it: the
    /// handle's lock is one that `Mutex::new` made around `x`.
    pub fn new(x: T) -> (r: ArcMutex<T>)
        ensures
            made_around(r@, x),
    {
        ArcMutex { ptr: Arc::new(Mutex::new(x)) }
    }
}

impl<T> Clone for ArcMutex<T> {
    /// Another handle to the same lock. The value inside is not copied, so
    /// `T` need not be `Clone`.
    fn clone(&self) -> (r: ArcMutex<T>)
        ensures
            r@ == self@,
    {
        ArcMutex { ptr: clone_arc(&self.ptr) }
    }
}

impl<T> Deref for ArcMutex<T> {
    type Target = Arc<Mutex<T>>;

    /// The shared pointer to this handle's lock.
    fn deref(&self) -> (r: &Arc<Mutex<T>>)
        ensures
            **r == self@,
    {
        &self.ptr
    }
}

impl<T> DerefMut for ArcMutex<T> {
    /// The shared pointer itself, for the caller to use or replace. The
    /// handle refers afterwards to the lock of whatever pointer is left
    /// there.
    fn deref_mut(&mut self) -> (r: &mut Arc<Mutex<T>>)
        ensures
            **r == old(self)@,
            final(self)@ == **final(r),
    {
        &mut self.ptr
    }
}

} // verus!
