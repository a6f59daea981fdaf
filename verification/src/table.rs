//! The mapping itself, as one thread sees it while it holds the lock.

use crate::error::{StashError, StashResult};
use crate::model::{after_set, get_result, set_result, well_formed, Mapping};
use vstd::hash_map::StringHashMap;
use vstd::prelude::*;

verus! {

/// A string-to-string mapping in which no entry has the empty key.
pub struct Table {
    entries: StringHashMap<String>,
}

/// A looked-up value by its characters.
pub open spec fn found(r: StashResult<Option<String>>) -> StashResult<Option<Seq<char>>> {
    match r {
        Ok(Some(value)) => Ok(Some(value@)),
        Ok(None) => Ok(None),
        Err(e) => Err(e),
    }
}

impl View for Table {
    type V = Mapping;

    closed spec fn view(&self) -> Mapping {
        self.entries@.map_values(|value: String| value@)
    }
}

impl Table {
    #[verifier::type_invariant]
    spec fn no_empty_key(self) -> bool {
        !self.entries@.contains_key(Seq::<char>::empty())
    }

    /// An empty mapping.
    pub fn new() -> (table: Table)
        ensures
            table@ == Mapping::empty(),
    {
        let table = Table { entries: StringHashMap::new() };
        assert(table@ =~= Mapping::empty());
        table
    }

    /// Binds `key` to `value`, replacing what `key` was bound to before.
    /// The empty key is refused with `EmptyKey`, and the mapping stays as it
    /// is.
    pub fn set(&mut self, key: String, value: String) -> (r: StashResult<()>)
        ensures
            r == set_result(key@),
            final(self)@ == after_set(old(self)@, key@, value@),
            well_formed(final(self)@),
    {
        proof {
            use_type_invariant(&*self);
        }
        if key.as_str().is_empty() {
            return Err(StashError::EmptyKey);
        }
        // The entries are moved out for the insertion, so that the table is
        // well formed at every moment, also if the insertion unwinds.
        let mut entries = StringHashMap::new();
        core::mem::swap(&mut self.entries, &mut entries);
        entries.insert(key, value);
        self.entries = entries;
        assert(self@ =~= old(self)@.insert(key@, value@));
        Ok(())
    }

    /// Looks `key` up. A key that is not bound is no error: the answer is
    /// `Ok(None)`. The empty key is refused with `EmptyKey`.
    pub fn get(&self, key: &str) -> (r: StashResult<Option<String>>)
        ensures
            found(r) == get_result(self@, key@),
            well_formed(self@),
    {
        proof {
            use_type_invariant(self);
        }
        if key.is_empty() {
            return Err(StashError::EmptyKey);
        }
        match self.entries.get(key) {
            Some(value) => Ok(Some(value.clone())),
            None => Ok(None),
        }
    }
}

} // verus!
