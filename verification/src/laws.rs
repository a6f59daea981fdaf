//! What holds of `set` and `get` on every mapping, proved over the model.

use crate::error::StashError;
use crate::model::{after_set, after_sets, get_result, set_result, valid_key, well_formed, Mapping};
use vstd::prelude::*;

verus! {

/// A `set` with a non-empty key succeeds, and a `get` of that key then
/// returns the value that was set.
pub proof fn get_returns_what_was_set(m: Mapping, key: Seq<char>, value: Seq<char>)
    requires
        valid_key(key),
    ensures
        set_result(key) == Ok::<(), StashError>(()),
        get_result(after_set(m, key, value), key) == Ok::<Option<Seq<char>>, StashError>(
            Some(value),
        ),
{
}

/// Of two `set` calls on one key the later one wins: the mapping is as if
/// the earlier had not happened, and `get` returns the later value.
pub proof fn later_set_overwrites(m: Mapping, key: Seq<char>, first: Seq<char>, second: Seq<char>)
    requires
        valid_key(key),
    ensures
        after_set(after_set(m, key, first), key, second) == after_set(m, key, second),
        get_result(after_set(after_set(m, key, first), key, second), key) == Ok::<
            Option<Seq<char>>,
            StashError,
        >(Some(second)),
{
    assert(m.insert(key, first).insert(key, second) =~= m.insert(key, second));
}

/// A `set` on one key does not change what `get` returns for another.
pub proof fn set_leaves_other_keys(m: Mapping, key: Seq<char>, value: Seq<char>, other: Seq<char>)
    requires
        other != key,
    ensures
        get_result(after_set(m, key, value), other) == get_result(m, other),
{
}

/// A store that starts empty holds nothing under a non-empty key that no
/// `set` was given: `get` returns `Ok(None)`, not an error.
pub proof fn unset_key_is_absent(writes: Seq<(Seq<char>, Seq<char>)>, key: Seq<char>)
    requires
        valid_key(key),
        forall|i: int| 0 <= i < writes.len() ==> (#[trigger] writes[i]).0 != key,
    ensures
        get_result(after_sets(Mapping::empty(), writes), key) == Ok::<
            Option<Seq<char>>,
            StashError,
        >(None),
    decreases writes.len(),
{
    if writes.len() > 0 {
        let earlier = writes.drop_last();
        assert forall|i: int| 0 <= i < earlier.len() implies (#[trigger] earlier[i]).0 != key by {
            assert(earlier[i] == writes[i]);
        }
        unset_key_is_absent(earlier, key);
        assert(writes.last() == writes[writes.len() - 1]);
    }
}

/// After any run of `set` calls, `get` returns the value of the last call
/// that was given the key.
pub proof fn get_returns_last_write(
    m: Mapping,
    writes: Seq<(Seq<char>, Seq<char>)>,
    last: int,
    key: Seq<char>,
)
    requires
        valid_key(key),
        0 <= last < writes.len(),
        writes[last].0 == key,
        forall|i: int| last < i < writes.len() ==> (#[trigger] writes[i]).0 != key,
    ensures
        get_result(after_sets(m, writes), key) == Ok::<Option<Seq<char>>, StashError>(
            Some(writes[last].1),
        ),
    decreases writes.len(),
{
    let earlier = writes.drop_last();
    if last < writes.len() - 1 {
        assert(earlier[last] == writes[last]);
        assert forall|i: int| last < i < earlier.len() implies (#[trigger] earlier[i]).0 != key by {
            assert(earlier[i] == writes[i]);
        }
        get_returns_last_write(m, earlier, last, key);
        assert(writes.last() == writes[writes.len() - 1]);
    }
}

/// `set` calls on keys that all differ do not disturb each other: in
/// whatever order they reach the mapping, each key then leads to the value
/// of its own call.
pub proof fn sets_on_distinct_keys_all_land(
    m: Mapping,
    writes: Seq<(Seq<char>, Seq<char>)>,
    which: int,
)
    requires
        0 <= which < writes.len(),
        forall|i: int| 0 <= i < writes.len() ==> valid_key((#[trigger] writes[i]).0),
        forall|i: int, j: int|
            0 <= i < j < writes.len() ==> (#[trigger] writes[i]).0 != (#[trigger] writes[j]).0,
    ensures
        get_result(after_sets(m, writes), writes[which].0) == Ok::<
            Option<Seq<char>>,
            StashError,
        >(Some(writes[which].1)),
{
    get_returns_last_write(m, writes, which, writes[which].0);
}

/// A `set` with the empty key is refused with `EmptyKey`, whatever the
/// value, and leaves the mapping as it was.
pub proof fn empty_key_set_is_refused(m: Mapping, value: Seq<char>)
    ensures
        set_result(Seq::<char>::empty()) == Err::<(), StashError>(StashError::EmptyKey),
        after_set(m, Seq::<char>::empty(), value) == m,
{
}

/// A `get` with the empty key is refused with `EmptyKey`, whatever the
/// mapping holds.
pub proof fn empty_key_get_is_refused(m: Mapping)
    ensures
        get_result(m, Seq::<char>::empty()) == Err::<Option<Seq<char>>, StashError>(
            StashError::EmptyKey,
        ),
{
}

/// `EmptyKey` is the answer to the empty key and to no other.
pub proof fn only_empty_key_is_refused(m: Mapping, key: Seq<char>)
    ensures
        set_result(key) is Err <==> key == Seq::<char>::empty(),
        get_result(m, key) is Err <==> key == Seq::<char>::empty(),
{
    if key.len() == 0 {
        assert(key =~= Seq::<char>::empty());
    }
}

/// No `set` puts an entry under the empty key.
pub proof fn set_keeps_well_formed(m: Mapping, key: Seq<char>, value: Seq<char>)
    requires
        well_formed(m),
    ensures
        well_formed(after_set(m, key, value)),
{
}

/// A store that starts empty never holds an entry under the empty key.
pub proof fn store_stays_well_formed(writes: Seq<(Seq<char>, Seq<char>)>)
    ensures
        well_formed(after_sets(Mapping::empty(), writes)),
    decreases writes.len(),
{
    if writes.len() > 0 {
        store_stays_well_formed(writes.drop_last());
    }
}

} // verus!
