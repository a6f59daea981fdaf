//! The ways in which an operation on the store can fail.

use std::sync::PoisonError;
use vstd::prelude::*;
use vstd::std_specs::convert::FromSpecImpl;

verus! {

/// Why a `set` or a `get` did not go through.
#[derive(Debug, Clone, Copy, PartialEq, Eq, Structural)]
pub enum StashError {
    /// The key was the empty string. The operation had no effect; the caller
    /// can correct the key and try again.
    EmptyKey,
    /// A thread panicked while it held the lock for writing, so the mapping
    /// may be half-changed. The store reports this and does not retry.
    LockPoisoned,
}

/// What the store's operations return.
pub type StashResult<T> = Result<T, StashError>;

/// A poisoned lock, whatever it guards, is reported as `LockPoisoned`.
impl<T> From<PoisonError<T>> for StashError {
    fn from(poison: PoisonError<T>) -> (e: StashError) {
        StashError::LockPoisoned
    }
}

impl<T> FromSpecImpl<PoisonError<T>> for StashError {
    open spec fn obeys_from_spec() -> bool {
        true
    }

    open spec fn from_spec(poison: PoisonError<T>) -> StashError {
        StashError::LockPoisoned
    }
}

} // verus!
