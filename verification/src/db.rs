//! The store that callers share: the mapping behind a reader-writer lock.

use crate::error::{StashError, StashResult};
use crate::lock::{made_around, new_lock};
use crate::model::{valid_key, Mapping};
use crate::table::Table;
use std::sync::{Arc, RwLock};
use vstd::prelude::*;

verus! {

/// A string-to-string store that any number of threads may use at once.
///
/// One lock guards the whole mapping. `get` takes it shared, `set` takes it
/// exclusively, and each lets go of it before it returns, so the operations
/// on one store happen one after the other in the order in which they got
/// the lock. What each does to the mapping in its turn is what
/// [`Table::set`] and [`Table::get`] say.
pub struct Stash {
    store: Arc<RwLock<Table>>,
}

impl Stash {
    /// The mapping that the store held when it was made. What it holds at a
    /// later moment depends on the threads that share it, and no contract
    /// of this type speaks of that.
    pub closed spec fn initial(&self) -> Mapping {
        made_around(*self.store)
    }

    /// A store with no entries.
    pub fn new() -> (stash: Stash)
        ensures
            stash.initial() == Mapping::empty(),
    {
        Stash { store: Arc::new(new_lock(Table::new())) }
    }

    /// Binds `key` to `value`, replacing what `key` was bound to before.
    ///
    /// The empty key is refused with `EmptyKey` before the lock is asked
    /// for, so the mapping is not touched. For any other key the call waits
    /// for exclusive access and writes the entry; the only other outcome is
    /// `LockPoisoned`, when the lock reports that a writer panicked.
    pub fn set(&self, key: String, value: String) -> (r: StashResult<()>)
        ensures
            !valid_key(key@) ==> r == Err::<(), StashError>(StashError::EmptyKey),
            valid_key(key@) ==> r == Ok::<(), StashError>(()) || r == Err::<(), StashError>(
                StashError::LockPoisoned,
            ),
    {
        if key.as_str().is_empty() {
            return Err(StashError::EmptyKey);
        }
        match self.store.write() {
            Ok(mut guard) => {
                let table: &mut Table = &mut *guard;
                table.set(key, value)
            },
            Err(poison) => Err(StashError::from(poison)),
        }
    }

    /// Looks `key` up. A key that is not bound is no error: the answer is
    /// `Ok(None)`.
    ///
    /// The empty key is refused with `EmptyKey` before the lock is asked
    /// for. For any other key the call waits for shared access and reads the
    /// entry; the only other outcome is `LockPoisoned`.
    pub fn get(&self, key: &str) -> (r: StashResult<Option<String>>)
        ensures
            !valid_key(key@) ==> r == Err::<Option<String>, StashError>(StashError::EmptyKey),
            valid_key(key@) ==> r is Ok || r == Err::<Option<String>, StashError>(
                StashError::LockPoisoned,
            ),
    {
        if key.is_empty() {
            return Err(StashError::EmptyKey);
        }
        match self.store.read() {
            Ok(guard) => {
                let table: &Table = &*guard;
                table.get(key)
            },
            Err(poison) => Err(StashError::from(poison)),
        }
    }
}

} // verus!
