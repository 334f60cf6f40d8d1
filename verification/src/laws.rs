//! Laws relating the storage operations to one another, stated over the
//! mathematical store model and proved once for every key and value type.

use vstd::prelude::*;

use crate::entry_map::{keys_ascending, lemma_ordered_insert, map_of, ordered_insert,
    unique_keys};
use crate::keys::StorageKey;

verus! {

/// Round trip: storing a value under a fresh key and then looking that key
/// up yields exactly the value stored. `post` is the store an insertion
/// leaves behind, and `got` is what a following lookup hands back; for any
/// value type whose clone returns its input, `got` is the inserted value.
pub proof fn lemma_insert_get_round_trip<K: StorageKey, V: Clone>(
    pre: Seq<(K, V)>,
    post: Seq<(K, V)>,
    key: K,
    value: V,
    got: V,
)
    requires
        unique_keys(pre),
        keys_ascending(pre),
        !map_of(pre).contains_key(key@),
        post == ordered_insert(pre, key, value),
        cloned(map_of(post)[key@], got),
        forall|a: V, b: V| #[trigger] cloned(a, b) ==> b == a,
    ensures
        got == value,
{
    crate::entry_map::lemma_map_of_contains(pre, key@);
    lemma_ordered_insert(pre, key, value);
    assert(map_of(post)[key@] == value);
    assert(cloned(value, got));
}

/// On an absent key, `upsert` leaves exactly the store that `insert_by_key`
/// leaves (and `insert_by_key` is owed success there): the two operations
/// agree whenever both are allowed.
pub proof fn lemma_upsert_absent_like_insert_by_key<K: StorageKey, V: Clone>(
    pre: Seq<(K, V)>,
    after_upsert: Seq<(K, V)>,
    after_insert: Seq<(K, V)>,
    key: K,
    value: V,
)
    requires
        unique_keys(pre),
        keys_ascending(pre),
        !map_of(pre).contains_key(key@),
        after_upsert == ordered_insert(pre, key, value),
        after_insert == ordered_insert(pre, key, value),
    ensures
        after_upsert == after_insert,
        map_of(after_upsert) == map_of(pre).insert(key@, value),
{
    crate::entry_map::lemma_map_of_contains(pre, key@);
    lemma_ordered_insert(pre, key, value);
}

/// On a present key, `upsert` fully replaces the value under that key and
/// leaves every other key's value alone.
pub proof fn lemma_upsert_replaces<K: StorageKey, V: Clone>(
    m: Map<<K as View>::V, V>,
    key: K,
    value: V,
)
    ensures
        m.insert(key@, value)[key@] == value,
        forall|kv: <K as View>::V|
            kv != key@ && m.contains_key(kv) ==> #[trigger] m.insert(key@, value)[kv] == m[kv],
{
}

/// What `remove_many` leaves, pointwise: a key survives exactly when it was
/// present and is not among the removed ones, and a surviving key keeps its
/// value. Absent keys among the removed ones are silently skipped.
pub proof fn lemma_remove_keys_pointwise<KV, V>(m: Map<KV, V>, removed: Set<KV>, kv: KV)
    ensures
        m.remove_keys(removed).contains_key(kv) <==> (m.contains_key(kv) && !removed.contains(
            kv,
        )),
        m.remove_keys(removed).contains_key(kv) ==> m.remove_keys(removed)[kv] == m[kv],
{
}

/// A store with unique keys has exactly as many entries as its map has
/// keys, so the reported size is the number of stored keys.
pub proof fn lemma_size_is_key_count<K: StorageKey, V: Clone>(s: Seq<(K, V)>)
    requires
        unique_keys(s),
    ensures
        map_of(s).dom().len() == s.len(),
        map_of(s).dom().finite(),
    decreases s.len(),
{
    if s.len() > 0 {
        assert(unique_keys(s.drop_last()));
        lemma_size_is_key_count(s.drop_last());
        crate::entry_map::lemma_map_of_contains(s.drop_last(), s.last().0@);
        assert(!map_of(s.drop_last()).contains_key(s.last().0@)) by {
            if exists|i: int|
                0 <= i < s.drop_last().len() && s.drop_last()[i].0@ == s.last().0@ {
                let i = choose|i: int|
                    0 <= i < s.drop_last().len() && s.drop_last()[i].0@ == s.last().0@;
                assert(s[i].0@ == s[s.len() - 1].0@);
            }
        }
        assert(map_of(s).dom() =~= map_of(s.drop_last()).dom().insert(s.last().0@));
    } else {
        assert(map_of(s).dom() =~= Set::<<K as View>::V>::empty());
    }
}

} // verus!
