//! The mathematical model of the store: a map from keys to values, both
//! sequences of characters, and what `set` and `get` mean on it.

use crate::error::StashError;
use vstd::prelude::*;

verus! {

/// The contents of a store.
pub type Mapping = Map<Seq<char>, Seq<char>>;

/// A key is accepted exactly when it is not the empty string.
pub open spec fn valid_key(key: Seq<char>) -> bool {
    key.len() > 0
}

/// No entry of `m` sits under the empty key.
pub open spec fn well_formed(m: Mapping) -> bool {
    !m.contains_key(Seq::<char>::empty())
}

/// What `set(key, _)` answers when it has the mapping to itself.
pub open spec fn set_result(key: Seq<char>) -> Result<(), StashError> {
    if valid_key(key) {
        Ok(())
    } else {
        Err(StashError::EmptyKey)
    }
}

/// The mapping that `set(key, value)` leaves behind: `key` now leads to
/// `value`, every other key is as it was; a rejected key changes nothing.
pub open spec fn after_set(m: Mapping, key: Seq<char>, value: Seq<char>) -> Mapping {
    if valid_key(key) {
        m.insert(key, value)
    } else {
        m
    }
}

/// What `get(key)` answers on the mapping `m`.
pub open spec fn get_result(m: Mapping, key: Seq<char>) -> Result<Option<Seq<char>>, StashError> {
    if !valid_key(key) {
        Err(StashError::EmptyKey)
    } else if m.contains_key(key) {
        Ok(Some(m[key]))
    } else {
        Ok(None)
    }
}

/// The mapping that a run of `set` calls leaves behind when it starts on `m`.
/// `writes` lists the calls, oldest first, each as its key and its value.
pub open spec fn after_sets(m: Mapping, writes: Seq<(Seq<char>, Seq<char>)>) -> Mapping
    decreases writes.len(),
{
    if writes.len() == 0 {
        m
    } else {
        after_set(after_sets(m, writes.drop_last()), writes.last().0, writes.last().1)
    }
}

} // verus!
