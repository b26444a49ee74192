//! Looking a key up in a list, first match first.

use vstd::prelude::*;

verus! {

/// `i` is the first position of `key` in `keys`.
pub open spec fn is_first_at<K>(keys: Seq<K>, key: K, i: int) -> bool {
    &&& 0 <= i < keys.len()
    &&& keys[i] == key
    &&& forall|j: int| 0 <= j < i ==> keys[j] != key
}

/// The first position of `key` in `keys`, if it occurs at all.
pub open spec fn first_index<K>(keys: Seq<K>, key: K) -> Option<int> {
    if exists|i: int| is_first_at(keys, key, i) {
        Some(choose|i: int| is_first_at(keys, key, i))
    } else {
        None
    }
}

/// No key occurs twice.
pub open spec fn all_distinct<K>(keys: Seq<K>) -> bool {
    forall|i: int, j: int| 0 <= i < j < keys.len() ==> keys[i] != keys[j]
}

/// The first position is the only first position.
pub proof fn first_index_found<K>(keys: Seq<K>, key: K, i: int)
    requires
        is_first_at(keys, key, i),
    ensures
        first_index(keys, key) == Some(i),
{
    let chosen = choose|k: int| is_first_at(keys, key, k);
    assert(is_first_at(keys, key, chosen));
    if chosen < i {
        assert(keys[chosen] != key);
    } else if i < chosen {
        assert(keys[i] != key);
    }
}

/// A key that stands nowhere has no first position.
pub proof fn first_index_missing<K>(keys: Seq<K>, key: K)
    requires
        forall|j: int| 0 <= j < keys.len() ==> keys[j] != key,
    ensures
        first_index(keys, key) is None,
{
}

/// What `first_index` returns is a first position, and `None` means absence.
pub proof fn first_index_sound<K>(keys: Seq<K>, key: K)
    ensures
        match first_index(keys, key) {
            Some(i) => is_first_at(keys, key, i),
            None => forall|j: int| 0 <= j < keys.len() ==> keys[j] != key,
        },
{
    if first_index(keys, key) is None {
        assert forall|j: int| 0 <= j < keys.len() implies keys[j] != key by {
            if keys[j] == key {
                least_match(keys, key, j);
            }
        }
    }
}

/// A key that stands somewhere has a first position.
pub proof fn least_match<K>(keys: Seq<K>, key: K, j: int)
    requires
        0 <= j < keys.len(),
        keys[j] == key,
    ensures
        exists|i: int| is_first_at(keys, key, i),
        first_index(keys, key) is Some,
    decreases j,
{
    if forall|k: int| 0 <= k < j ==> keys[k] != key {
        assert(is_first_at(keys, key, j));
    } else {
        let k = choose|k: int| 0 <= k < j && keys[k] == key;
        least_match(keys, key, k);
    }
}

/// Among distinct keys, every position is the first position of its key.
pub proof fn distinct_keys_found<K>(keys: Seq<K>, i: int)
    requires
        all_distinct(keys),
        0 <= i < keys.len(),
    ensures
        first_index(keys, keys[i]) == Some(i),
{
    assert(is_first_at(keys, keys[i], i));
    first_index_found(keys, keys[i], i);
}

} // verus!
