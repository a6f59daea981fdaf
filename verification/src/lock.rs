//! The reader-writer lock of the standard library, as far as the store uses
//! it. Nothing in this file is proved: Verus takes each declaration on trust.

use crate::model::Mapping;
use crate::table::Table;
use std::sync::{LockResult, PoisonError, RwLock, RwLockReadGuard, RwLockWriteGuard};
use vstd::prelude::*;

verus! {

/// `std::sync::RwLock`. Verus sees nothing inside a lock.
#[verifier::external_type_specification]
#[verifier::external_body]
#[verifier::reject_recursive_types(T)]
pub struct ExRwLock<T: ?Sized>(RwLock<T>);

/// `std::sync::RwLockReadGuard`: shared access, given up when the guard is
/// dropped.
#[verifier::external_type_specification]
#[verifier::external_body]
#[verifier::reject_recursive_types(T)]
pub struct ExRwLockReadGuard<'a, T: ?Sized>(RwLockReadGuard<'a, T>);

/// `std::sync::RwLockWriteGuard`: exclusive access, given up when the guard
/// is dropped.
#[verifier::external_type_specification]
#[verifier::external_body]
#[verifier::reject_recursive_types(T)]
pub struct ExRwLockWriteGuard<'a, T: ?Sized + 'a>(RwLockWriteGuard<'a, T>);

/// `std::sync::PoisonError`: what a lock answers once a writer has panicked
/// while it held the lock.
#[verifier::external_type_specification]
#[verifier::external_body]
#[verifier::reject_recursive_types(T)]
pub struct ExPoisonError<T>(PoisonError<T>);

/// The mapping that a lock held when it was made. What it holds later is up
/// to the threads that write through it, and has no name here.
pub uninterp spec fn made_around(lock: RwLock<Table>) -> Mapping;

/// `std::sync::RwLock::new`: a new, unlocked lock that holds `table`.
#[verifier::external_body]
pub(crate) fn new_lock(table: Table) -> (lock: RwLock<Table>)
    ensures
        made_around(lock) == table@,
{
    RwLock::new(table)
}

/// `std::sync::RwLock::write`: waits until the calling thread has the lock
/// to itself. Nothing is claimed of the outcome, which is `Err` once the lock
/// is poisoned. The call may panic or never return if the calling thread
/// holds this lock already.
pub assume_specification<'a, T: ?Sized>[ RwLock::<T>::write ](lock: &'a RwLock<T>) -> (r:
    LockResult<RwLockWriteGuard<'a, T>>)
;

/// `std::sync::RwLock::read`: waits until no writer holds the lock. Nothing
/// is claimed of the outcome, which is `Err` once the lock is poisoned. The
/// call may panic or never return if the calling thread holds this lock
/// already.
pub assume_specification<'a, T: ?Sized>[ RwLock::<T>::read ](lock: &'a RwLock<T>) -> (r:
    LockResult<RwLockReadGuard<'a, T>>)
;

/// `Deref::deref` of a read guard: the value that the lock guards. Nothing
/// is claimed of it: another thread may have changed it since this thread
/// last looked.
pub assume_specification<'b, T: ?Sized, 'a>[ <RwLockReadGuard<'b, T> as core::ops::Deref>::deref ](
    guard: &'a RwLockReadGuard<'b, T>,
) -> (r: &'a T)
;

/// `DerefMut::deref_mut` of a write guard: the value that the lock guards,
/// to be changed in place. Nothing is claimed of the value found.
pub assume_specification<'b, T: ?Sized, 'a>[ <RwLockWriteGuard<'b, T> as core::ops::DerefMut>::deref_mut ](
    guard: &'a mut RwLockWriteGuard<'b, T>,
) -> (r: &'a mut T)
;

} // verus!
