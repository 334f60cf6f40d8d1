//! Small maps and sets stored as vectors: (key, value) pair lists with
//! unique key views, and membership and removal helpers for plain key
//! lists. Entity records hold their nested collections in this form.

use vstd::prelude::*;

use crate::entry_map::{keys_ascending, lemma_map_of_contains, lemma_map_of_index,
    lemma_map_of_push, lemma_map_of_remove, lemma_map_of_update, lemma_ordered_insert,
    lemma_ordered_insert_at, map_of, ordered_insert, unique_keys};
use crate::keys::StorageKey;

verus! {

/// Whether some element of the list has the given key view.
pub open spec fn has_key_view<K: StorageKey>(s: Seq<K>, kv: <K as View>::V) -> bool {
    exists|i: int| 0 <= i < s.len() && s[i]@ == kv
}

/// Membership by key view.
pub fn key_in_vec<K: StorageKey>(v: &Vec<K>, key: &K) -> (r: bool)
    ensures
        r == has_key_view(v@, key@),
{
    let n = v.len();
    let mut i: usize = 0;
    while i < n
        invariant
            n == v@.len(),
            i <= n,
            forall|j: int| 0 <= j < i ==> v@[j]@ != key@,
        decreases n - i,
    {
        if v[i].key_eq(key) {
            return true;
        }
        i += 1;
    }
    false
}

/// The elements whose view differs from the given one, in order.
pub open spec fn without_key<K: StorageKey>(s: Seq<K>, kv: <K as View>::V) -> Seq<K>
    decreases s.len(),
{
    if s.len() == 0 {
        Seq::empty()
    } else {
        let rest = without_key(s.drop_last(), kv);
        if s.last()@ == kv {
            rest
        } else {
            rest.push(s.last())
        }
    }
}

/// Drop every element whose view equals the given key's, keeping the order
/// of the rest.
pub fn retain_without_key<K: StorageKey>(v: &mut Vec<K>, key: &K)
    ensures
        final(v)@ == without_key(old(v)@, key@),
{
    let ghost orig = v@;
    let ghost mut p: int = 0;
    let mut i: usize = 0;
    while i < v.len()
        invariant
            0 <= p <= orig.len(),
            i == without_key(orig.subrange(0, p), key@).len(),
            v@ == without_key(orig.subrange(0, p), key@) + orig.subrange(p, orig.len() as int),
            i <= v@.len(),
        decreases orig.len() - p,
    {
        proof {
            assert(orig.subrange(0, p + 1).drop_last() =~= orig.subrange(0, p));
            assert(orig.subrange(0, p + 1).last() == orig[p]);
            assert(v@[i as int] == orig[p]);
        }
        if v[i].key_eq(key) {
            let ghost pre = v@;
            v.remove(i);
            proof {
                assert(v@ =~= without_key(orig.subrange(0, p + 1), key@) + orig.subrange(
                    p + 1,
                    orig.len() as int,
                ));
            }
        } else {
            proof {
                assert(without_key(orig.subrange(0, p + 1), key@) == without_key(
                    orig.subrange(0, p),
                    key@,
                ).push(orig[p]));
                assert(v@ =~= without_key(orig.subrange(0, p + 1), key@) + orig.subrange(
                    p + 1,
                    orig.len() as int,
                ));
            }
            i += 1;
        }
        proof {
            p = p + 1;
        }
    }
    proof {
        assert(orig.subrange(p, orig.len() as int).len() == 0);
        assert(p == orig.len());
        assert(orig.subrange(0, p) =~= orig);
        assert(v@ =~= without_key(orig, key@));
    }
}

/// The position of a key among the pairs.
fn assoc_index<K: StorageKey, V>(entries: &Vec<(K, V)>, key: &K) -> (r: Option<usize>)
    ensures
        match r {
            Some(i) => i < entries@.len() && entries@[i as int].0@ == key@,
            None => forall|j: int| 0 <= j < entries@.len() ==> entries@[j].0@ != key@,
        },
{
    let n = entries.len();
    let mut i: usize = 0;
    while i < n
        invariant
            n == entries@.len(),
            i <= n,
            forall|j: int| 0 <= j < i ==> entries@[j].0@ != key@,
        decreases n - i,
    {
        if entries[i].0.key_eq(key) {
            return Some(i);
        }
        i += 1;
    }
    None
}

/// Whether the list maps the given key.
pub fn assoc_contains<K: StorageKey, V>(entries: &Vec<(K, V)>, key: &K) -> (r: bool)
    requires
        unique_keys(entries@),
    ensures
        r == map_of(entries@).contains_key(key@),
{
    match assoc_index(entries, key) {
        Some(i) => {
            proof {
                lemma_map_of_index(entries@, i as int);
            }
            true
        },
        None => {
            proof {
                lemma_map_of_contains(entries@, key@);
            }
            false
        },
    }
}

/// The value under a key, by reference.
pub fn assoc_get<'a, K: StorageKey, V>(entries: &'a Vec<(K, V)>, key: &K) -> (r: Option<&'a V>)
    requires
        unique_keys(entries@),
    ensures
        r is Some <==> map_of(entries@).contains_key(key@),
        r matches Some(v) ==> *v == map_of(entries@)[key@],
{
    match assoc_index(entries, key) {
        Some(i) => {
            proof {
                lemma_map_of_index(entries@, i as int);
            }
            Some(&entries[i].1)
        },
        None => {
            proof {
                lemma_map_of_contains(entries@, key@);
            }
            None
        },
    }
}

/// Store a value under a key, replacing an existing binding.
pub fn assoc_insert<K: StorageKey, V>(entries: &mut Vec<(K, V)>, key: K, value: V)
    requires
        unique_keys(old(entries)@),
    ensures
        unique_keys(final(entries)@),
        map_of(final(entries)@) == map_of(old(entries)@).insert(key@, value),
{
    match assoc_index(entries, &key) {
        Some(i) => {
            proof {
                lemma_map_of_index(entries@, i as int);
            }
            let ghost pre = entries@;
            entries.remove(i);
            entries.insert(i, (key, value));
            proof {
                assert(entries@ =~= pre.update(i as int, (key, value)));
                lemma_map_of_update(pre, i as int, key, value);
            }
        },
        None => {
            proof {
                lemma_map_of_contains(entries@, key@);
                lemma_map_of_push(entries@, key, value);
            }
            entries.push((key, value));
        },
    }
}

/// Drop the binding under a key; a list without it is left unchanged.
pub fn assoc_remove<K: StorageKey, V>(entries: &mut Vec<(K, V)>, key: &K) -> (removed: bool)
    requires
        unique_keys(old(entries)@),
    ensures
        unique_keys(final(entries)@),
        map_of(final(entries)@) == map_of(old(entries)@).remove(key@),
        removed == map_of(old(entries)@).contains_key(key@),
        !removed ==> *final(entries) == *old(entries),
{
    match assoc_index(entries, key) {
        Some(i) => {
            proof {
                lemma_map_of_index(entries@, i as int);
                lemma_map_of_remove(entries@, i as int);
            }
            entries.remove(i);
            true
        },
        None => {
            proof {
                lemma_map_of_contains(entries@, key@);
                assert(map_of(entries@) =~= map_of(entries@).remove(key@));
            }
            false
        },
    }
}

/// Every key of the list, in order.
pub fn assoc_keys<K: StorageKey, V>(entries: &Vec<(K, V)>) -> (r: Vec<K>)
    ensures
        r@.len() == entries@.len(),
        forall|i: int| 0 <= i < r@.len() ==> r@[i]@ == entries@[i].0@,
{
    let n = entries.len();
    let mut out: Vec<K> = Vec::new();
    let mut i: usize = 0;
    while i < n
        invariant
            n == entries@.len(),
            i <= n,
            out@.len() == i,
            forall|j: int| 0 <= j < i ==> out@[j]@ == entries@[j].0@,
        decreases n - i,
    {
        out.push(entries[i].0.key_clone());
        i += 1;
    }
    out
}


/// The position a fresh key belongs at: the first entry whose key is not
/// strictly below it.
fn ordered_position<K: StorageKey, V>(entries: &Vec<(K, V)>, key: &K) -> (p: usize)
    requires
        forall|i: int| 0 <= i < entries@.len() ==> entries@[i].0@ != key@,
    ensures
        p <= entries@.len(),
        forall|q: int| 0 <= q < p ==> K::le_view(entries@[q].0@, key@) && entries@[q].0@ != key@,
        p < entries@.len() ==> !(K::le_view(entries@[p as int].0@, key@) && entries@[p as int].0@
            != key@),
{
    let n = entries.len();
    let mut p: usize = 0;
    while p < n
        invariant
            n == entries@.len(),
            p <= n,
            forall|i: int| 0 <= i < entries@.len() ==> entries@[i].0@ != key@,
            forall|q: int| 0 <= q < p ==> K::le_view(entries@[q].0@, key@) && entries@[q].0@
                != key@,
        decreases n - p,
    {
        if !entries[p].0.key_le(key) {
            return p;
        }
        p += 1;
    }
    p
}

/// Place a fresh binding at its key's position, keeping the list ascending.
pub fn ordered_insert_pairs<K: StorageKey, V>(entries: &mut Vec<(K, V)>, key: K, value: V)
    requires
        unique_keys(old(entries)@),
        keys_ascending(old(entries)@),
        forall|i: int| 0 <= i < old(entries)@.len() ==> old(entries)@[i].0@ != key@,
    ensures
        final(entries)@ == ordered_insert(old(entries)@, key, value),
        unique_keys(final(entries)@),
        keys_ascending(final(entries)@),
        map_of(final(entries)@) == map_of(old(entries)@).insert(key@, value),
        final(entries)@.len() == old(entries)@.len() + 1,
{
    let ghost pre = entries@;
    let p = ordered_position(entries, &key);
    proof {
        lemma_ordered_insert_at(pre, p as int, key, value);
        lemma_ordered_insert(pre, key, value);
    }
    entries.insert(p, (key, value));
}

} // verus!
