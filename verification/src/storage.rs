//! The storage engine: typed key-value stores with query and mutation
//! operations, composed from capability traits.
//!
//! A store is an explicitly constructed object holding its entries; every
//! operation is a synchronous call with no suspension point, so each one is
//! atomic with respect to the process's request handling. Keys are unique
//! within a store and the entries ascend in the key order, so iteration
//! visits them ascending by key, as an ordered map's iteration does.
//!
//! The capability traits are separable: every store can be queried
//! (`StorageQueryable`) and updated (`StorageUpdateable`); auto-keyed
//! stores opt into `StorageInsertable`, externally-keyed stores into
//! `StorageInsertableByKey`.

use vstd::assert_sets_equal;
use vstd::prelude::*;

use crate::api_error::{ApiError, ApiErrorKind, CanisterResult};
use crate::assoc::ordered_insert_pairs;
use crate::entry_map::{keys_ascending, lemma_ascending_remove, lemma_ascending_update,
    lemma_map_of_contains, lemma_map_of_index, lemma_map_of_remove, lemma_map_of_update, map_of,
    ordered_insert, unique_keys};
use crate::filter::Filter;
use crate::id_iter::{next_counters, next_ok, next_value, IDIterStorage};
use crate::keys::StorageKey;

verus! {

/// The key views of a sequence of keys.
pub open spec fn key_views<K: StorageKey>(keys: Seq<K>) -> Seq<<K as View>::V> {
    keys.map_values(|k: K| k@)
}

/// The key views, among the given ones, that the map contains, in order.
pub open spec fn keys_found<K: StorageKey, V>(
    m: Map<<K as View>::V, V>,
    kvs: Seq<<K as View>::V>,
) -> Seq<<K as View>::V>
    decreases kvs.len(),
{
    if kvs.len() == 0 {
        Seq::empty()
    } else {
        let rest = keys_found::<K, V>(m, kvs.drop_last());
        if m.contains_key(kvs.last()) {
            rest.push(kvs.last())
        } else {
            rest
        }
    }
}

/// The entries that pass a filter, in storage order.
pub open spec fn filtered_entries<K, V, F: Filter<K, V>>(s: Seq<(K, V)>, f: &F) -> Seq<(K, V)>
    decreases s.len(),
{
    if s.len() == 0 {
        Seq::empty()
    } else {
        let rest = filtered_entries(s.drop_last(), f);
        if f.matches_spec(&s.last().0, &s.last().1) {
            rest.push(s.last())
        } else {
            rest
        }
    }
}

/// The kept entries are drawn from the sequence, so a filter keeps the
/// ascent of the keys.
pub proof fn lemma_filtered_ascending<K: StorageKey, V, F: Filter<K, V>>(s: Seq<(K, V)>, f: &F)
    ensures
        forall|i: int|
            0 <= i < filtered_entries(s, f).len() ==> exists|j: int|
                0 <= j < s.len() && #[trigger] filtered_entries(s, f)[i] == s[j],
        keys_ascending(s) ==> keys_ascending(filtered_entries(s, f)),
    decreases s.len(),
{
    let t = filtered_entries(s, f);
    if s.len() > 0 {
        let rest = filtered_entries(s.drop_last(), f);
        lemma_filtered_ascending(s.drop_last(), f);
        assert(forall|j: int| 0 <= j < s.drop_last().len() ==> s.drop_last()[j] == s[j]);
        assert forall|i: int| 0 <= i < t.len() implies exists|j: int|
            0 <= j < s.len() && #[trigger] t[i] == s[j] by {
            if i < rest.len() {
                assert(t[i] == rest[i]);
                let j = choose|j: int| 0 <= j < s.drop_last().len() && rest[i] == s.drop_last()[j];
                assert(t[i] == s[j]);
            } else {
                assert(t[i] == s.last());
                assert(t[i] == s[s.len() - 1]);
            }
        }
        if keys_ascending(s) {
            assert(keys_ascending(s.drop_last()));
            assert forall|i: int, j: int|
                0 <= i < j < t.len() implies K::le_view(t[i].0@, t[j].0@) by {
                if j < rest.len() {
                    assert(t[i] == rest[i] && t[j] == rest[j]);
                } else {
                    assert(t[j] == s.last());
                    assert(t[i] == rest[i]);
                    let w = choose|w: int|
                        0 <= w < s.drop_last().len() && rest[i] == s.drop_last()[w];
                    assert(t[i] == s[w]);
                    assert(K::le_view(s[w].0@, s[s.len() - 1].0@));
                }
            }
        }
    }
}

/// The largest key present among u64-keyed entries, or 0 when there are
/// none: the seed the id allocator bootstraps from.
pub open spec fn max_key<V>(s: Seq<(u64, V)>) -> u64
    decreases s.len(),
{
    if s.len() == 0 {
        0u64
    } else {
        let rest = max_key(s.drop_last());
        if s.last().0 > rest {
            s.last().0
        } else {
            rest
        }
    }
}

/// In an ascending store the largest key is the last entry's.
pub proof fn lemma_max_is_last<V>(s: Seq<(u64, V)>)
    requires
        keys_ascending(s),
        s.len() > 0,
    ensures
        max_key(s) == s.last().0,
    decreases s.len(),
{
    if s.len() == 1 {
        assert(s.drop_last().len() == 0);
        assert(max_key(s.drop_last()) == 0);
    } else {
        assert(keys_ascending(s.drop_last())) by {
            assert(forall|j: int| 0 <= j < s.drop_last().len() ==> s.drop_last()[j] == s[j]);
        }
        lemma_max_is_last(s.drop_last());
        assert(s.drop_last().last() == s[s.len() - 2]);
        assert(<u64 as StorageKey>::le_view(s[s.len() - 2].0@, s[s.len() - 1].0@));
    }
}

/// A store: named, with a sequence of entries as its state.
pub trait Storage<K: StorageKey, V: Clone>: Sized {
    /// The entries, in storage order.
    spec fn entries(&self) -> Seq<(K, V)>;

    /// The store's name, used as allocator kind and as error context.
    spec fn store_name(&self) -> Seq<char>;

    /// The store's name.
    fn name(&self) -> (r: String)
        ensures
            r@ == self.store_name(),
    ;
}

/// Read-only operations of a store.
pub trait StorageQueryable<K: StorageKey, V: Clone>: Storage<K, V> {
    /// The number of entries.
    fn size(&self) -> (r: u64)
        ensures
            r == self.entries().len(),
    ;

    /// The entry under a key, or `NotFound`.
    fn get(&self, key: K) -> (r: CanisterResult<(K, V)>)
        requires
            unique_keys(self.entries()),
        ensures
            r is Ok <==> map_of(self.entries()).contains_key(key@),
            match r {
                Ok(p) => p.0 == key && cloned(map_of(self.entries())[key@], p.1),
                Err(e) => {
                    &&& e.kind == ApiErrorKind::NotFound
                    &&& e.method_name matches Some(m) && m@ == "get"@
                    &&& e.info matches Some(i) && i@ == self.store_name()
                    &&& e.message is None
                },
            },
    ;

    /// The entry under a key, or nothing; never fails.
    fn get_opt(&self, key: K) -> (r: Option<(K, V)>)
        requires
            unique_keys(self.entries()),
        ensures
            r is Some <==> map_of(self.entries()).contains_key(key@),
            r matches Some(p) ==> p.0 == key && cloned(map_of(self.entries())[key@], p.1),
    ;

    /// The entries under the given keys; absent keys are silently skipped.
    fn get_many(&self, keys: Vec<K>) -> (r: Vec<(K, V)>)
        requires
            unique_keys(self.entries()),
        ensures
            ({
                let m = map_of(self.entries());
                let found = keys_found::<K, V>(m, key_views(keys@));
                &&& r@.len() == found.len()
                &&& forall|i: int|
                    0 <= i < r@.len() ==> r@[i].0@ == found[i] && m.contains_key(found[i])
                        && cloned(m[found[i]], r@[i].1)
            }),
    ;

    /// Every entry, in storage order: ascending by key.
    fn get_all(&self) -> (r: Vec<(K, V)>)
        requires
            keys_ascending(self.entries()),
        ensures
            r@.len() == self.entries().len(),
            forall|i: int|
                0 <= i < r@.len() ==> r@[i].0@ == self.entries()[i].0@ && cloned(
                    self.entries()[i].1,
                    r@[i].1,
                ),
            forall|i: int, j: int| 0 <= i < j < r@.len() ==> K::le_view(r@[i].0@, r@[j].0@),
    ;

    /// The first entry that passes the filter — with the entries ascending,
    /// the match whose key is lowest — or nothing.
    fn find<F: Filter<K, V>>(&self, filter: &F) -> (r: Option<(K, V)>)
        requires
            keys_ascending(self.entries()),
        ensures
            (r matches Some(p) ==> forall|j: int|
                (0 <= j < self.entries().len() && #[trigger] filter.matches_spec(
                    &self.entries()[j].0,
                    &self.entries()[j].1,
                )) ==> K::le_view(p.0@, self.entries()[j].0@)),
            match r {
                Some(p) => exists|i: int|
                    {
                        &&& 0 <= i < self.entries().len()
                        &&& #[trigger] filter.matches_spec(
                            &self.entries()[i].0,
                            &self.entries()[i].1,
                        )
                        &&& forall|j: int|
                            0 <= j < i ==> !filter.matches_spec(
                                &self.entries()[j].0,
                                &self.entries()[j].1,
                            )
                        &&& p.0@ == self.entries()[i].0@
                        &&& cloned(self.entries()[i].1, p.1)
                    },
                None => forall|i: int|
                    0 <= i < self.entries().len() ==> !filter.matches_spec(
                        &self.entries()[i].0,
                        &self.entries()[i].1,
                    ),
            },
    ;

    /// Every entry that passes the filter, in storage order: ascending by
    /// key, not otherwise sorted.
    fn filter<F: Filter<K, V>>(&self, filter: &F) -> (r: Vec<(K, V)>)
        requires
            keys_ascending(self.entries()),
        ensures
            ({
                let kept = filtered_entries(self.entries(), filter);
                &&& r@.len() == kept.len()
                &&& forall|i: int|
                    0 <= i < r@.len() ==> r@[i].0@ == kept[i].0@ && cloned(kept[i].1, r@[i].1)
            }),
            forall|i: int, j: int| 0 <= i < j < r@.len() ==> K::le_view(r@[i].0@, r@[j].0@),
    ;

    /// Whether a key is present.
    fn contains_key(&self, key: K) -> (r: bool)
        requires
            unique_keys(self.entries()),
        ensures
            r == map_of(self.entries()).contains_key(key@),
    ;
}

/// Mutating operations of a store.
pub trait StorageUpdateable<K: StorageKey, V: Clone>: StorageQueryable<K, V> {
    /// Replace the value under an existing key; `NotFound` (with the store
    /// left unchanged) when the key is absent.
    fn update(&mut self, key: K, value: V) -> (r: CanisterResult<(K, V)>)
        requires
            unique_keys(old(self).entries()),
            keys_ascending(old(self).entries()),
        ensures
            unique_keys(final(self).entries()),
            keys_ascending(final(self).entries()),
            final(self).store_name() == old(self).store_name(),
            r is Ok <==> map_of(old(self).entries()).contains_key(key@),
            match r {
                Ok(p) => {
                    &&& map_of(final(self).entries()) == map_of(old(self).entries()).insert(
                        key@,
                        value,
                    )
                    &&& final(self).entries().len() == old(self).entries().len()
                    &&& p.0@ == key@
                    &&& cloned(value, p.1)
                },
                Err(e) => {
                    &&& *final(self) == *old(self)
                    &&& e.kind == ApiErrorKind::NotFound
                    &&& e.method_name matches Some(m) && m@ == "update"@
                    &&& e.info matches Some(i) && i@ == old(self).store_name()
                    &&& e.message matches Some(ms) && ms@ == "Key does not exist"@
                },
            },
    ;

    /// Store the value under the key whether or not the key is present;
    /// never fails. On an absent key it appends exactly as `insert_by_key`
    /// does; on a present key it fully replaces the value.
    fn upsert(&mut self, key: K, value: V) -> (r: CanisterResult<(K, V)>)
        requires
            unique_keys(old(self).entries()),
            keys_ascending(old(self).entries()),
        ensures
            unique_keys(final(self).entries()),
            keys_ascending(final(self).entries()),
            final(self).store_name() == old(self).store_name(),
            map_of(final(self).entries()) == map_of(old(self).entries()).insert(key@, value),
            !map_of(old(self).entries()).contains_key(key@) ==> final(self).entries()
                == ordered_insert(old(self).entries(), key, value),
            map_of(old(self).entries()).contains_key(key@) ==> final(self).entries().len() == old(
                self,
            ).entries().len(),
            r matches Ok(p) && p.0@ == key@ && cloned(value, p.1),
    ;

    /// Remove the entry under a key; `NotFound` (with the store left
    /// unchanged) when the key is absent.
    fn remove(&mut self, key: K) -> (r: CanisterResult<()>)
        requires
            unique_keys(old(self).entries()),
            keys_ascending(old(self).entries()),
        ensures
            unique_keys(final(self).entries()),
            keys_ascending(final(self).entries()),
            final(self).store_name() == old(self).store_name(),
            r is Ok <==> map_of(old(self).entries()).contains_key(key@),
            match r {
                Ok(_) => {
                    &&& map_of(final(self).entries()) == map_of(old(self).entries()).remove(key@)
                    &&& final(self).entries().len() == old(self).entries().len() - 1
                },
                Err(e) => {
                    &&& *final(self) == *old(self)
                    &&& e.kind == ApiErrorKind::NotFound
                    &&& e.method_name matches Some(m) && m@ == "remove"@
                    &&& e.info matches Some(i) && i@ == old(self).store_name()
                    &&& e.message matches Some(ms) && ms@ == "Key does not exist"@
                },
            },
    ;

    /// Remove the entries under the given keys; absent keys are silently
    /// skipped and no error is ever produced.
    fn remove_many(&mut self, keys: Vec<K>)
        requires
            unique_keys(old(self).entries()),
            keys_ascending(old(self).entries()),
        ensures
            unique_keys(final(self).entries()),
            keys_ascending(final(self).entries()),
            final(self).store_name() == old(self).store_name(),
            map_of(final(self).entries()) == map_of(old(self).entries()).remove_keys(
                key_views(keys@).to_set(),
            ),
    ;

    /// Empty the store. The id allocator is a separate component and is
    /// deliberately not reset, so keys are not reused across a wipe.
    fn clear(&mut self)
        ensures
            final(self).entries() == Seq::<(K, V)>::empty(),
            final(self).store_name() == old(self).store_name(),
    ;
}

/// Insertion for auto-keyed stores: the id allocator generates the key.
pub trait StorageInsertable<V: Clone>: StorageUpdateable<u64, V> {
    /// Allocate the next key for this store's kind and append the value
    /// under it. Fails with `Duplicate` (a defensive check) when the
    /// generated key is somehow already present; the allocator's counter
    /// has advanced in that case nevertheless.
    fn insert<I: IDIterStorage>(&mut self, ids: &mut I, value: V) -> (r: CanisterResult<
        (u64, V),
    >)
        requires
            unique_keys(old(self).entries()),
            keys_ascending(old(self).entries()),
            unique_keys(old(ids).counter_entries()),
            keys_ascending(old(ids).counter_entries()),
        ensures
            unique_keys(final(self).entries()),
            keys_ascending(final(self).entries()),
            unique_keys(final(ids).counter_entries()),
            keys_ascending(final(ids).counter_entries()),
            final(self).store_name() == old(self).store_name(),
            ({
                let m = map_of(old(self).entries());
                let c = map_of(old(ids).counter_entries());
                let kind = old(self).store_name();
                let seed = max_key(old(self).entries());
                if !next_ok(c, kind, seed) {
                    &&& r matches Err(e) && e.kind == ApiErrorKind::Unexpected
                    &&& (r matches Err(e) ==> e.method_name matches Some(mn) && mn@ == "next"@)
                    &&& *final(self) == *old(self)
                    &&& *final(ids) == *old(ids)
                } else {
                    let k = next_value(c, kind, seed);
                    &&& map_of(final(ids).counter_entries()) == next_counters(c, kind, seed)
                    &&& if m.contains_key(k) {
                        &&& r matches Err(e) && e.kind == ApiErrorKind::Duplicate
                        &&& (r matches Err(e) ==> e.method_name matches Some(mn) && mn@
                            == "insert"@)
                        &&& (r matches Err(e) ==> e.info matches Some(inf) && inf@ == old(
                            self,
                        ).store_name())
                        &&& (r matches Err(e) ==> e.message matches Some(ms) && ms@
                            == "Key already exists"@)
                        &&& *final(self) == *old(self)
                    } else {
                        &&& r matches Ok(p) && p.0 == k && cloned(value, p.1)
                        &&& final(self).entries() == ordered_insert(old(self).entries(), k, value)
                        &&& map_of(final(self).entries()) == m.insert(k, value)
                    }
                }
            }),
    ;
}

/// Insertion for externally-keyed stores: the caller supplies the key.
pub trait StorageInsertableByKey<K: StorageKey, V: Clone>: StorageUpdateable<K, V> {
    /// Append the value under the given key; `Duplicate` (with the store
    /// left unchanged) when the key is already present.
    fn insert_by_key(&mut self, key: K, value: V) -> (r: CanisterResult<(K, V)>)
        requires
            unique_keys(old(self).entries()),
            keys_ascending(old(self).entries()),
        ensures
            unique_keys(final(self).entries()),
            keys_ascending(final(self).entries()),
            final(self).store_name() == old(self).store_name(),
            r is Ok <==> !map_of(old(self).entries()).contains_key(key@),
            match r {
                Ok(p) => {
                    &&& final(self).entries() == ordered_insert(old(self).entries(), key, value)
                    &&& map_of(final(self).entries()) == map_of(old(self).entries()).insert(
                        key@,
                        value,
                    )
                    &&& p.0@ == key@
                    &&& cloned(value, p.1)
                },
                Err(e) => {
                    &&& *final(self) == *old(self)
                    &&& e.kind == ApiErrorKind::Duplicate
                    &&& e.method_name matches Some(m) && m@ == "insert_by_key"@
                    &&& e.info matches Some(i) && i@ == old(self).store_name()
                    &&& e.message matches Some(ms) && ms@ == "Key already exists"@
                },
            },
    ;
}

/// The one store implementation: a named list of entries with unique keys,
/// in insertion order.
pub struct GenericStorage<K: StorageKey, V: Clone> {
    name: String,
    entries: Vec<(K, V)>,
}

impl<K: StorageKey, V: Clone> GenericStorage<K, V> {
    /// An empty store with the given name. A store is constructed once, at
    /// process initialization, and lives for the process lifetime.
    pub fn new(name: &str) -> (s: Self)
        ensures
            s.entries() == Seq::<(K, V)>::empty(),
            s.store_name() == name@,
            unique_keys(s.entries()),
            keys_ascending(s.entries()),
    {
        GenericStorage { name: String::from_str(name), entries: Vec::new() }
    }

    /// The position of a key among the entries.
    fn find_index(&self, key: &K) -> (r: Option<usize>)
        ensures
            match r {
                Some(i) => i < self.entries@.len() && self.entries@[i as int].0@ == key@,
                None => forall|j: int|
                    0 <= j < self.entries@.len() ==> self.entries@[j].0@ != key@,
            },
    {
        let n = self.entries.len();
        let mut i: usize = 0;
        while i < n
            invariant
                n == self.entries@.len(),
                i <= n,
                forall|j: int| 0 <= j < i ==> self.entries@[j].0@ != key@,
            decreases n - i,
        {
            if self.entries[i].0.key_eq(key) {
                return Some(i);
            }
            i += 1;
        }
        None
    }
}

impl<V: Clone> GenericStorage<u64, V> {
    /// The largest key present, or 0 for an empty store: the seed the id
    /// allocator bootstraps from for a store pre-populated before the
    /// allocator existed.
    pub fn get_last_key(&self) -> (r: u64)
        ensures
            r == max_key(self.entries()),
            keys_ascending(self.entries()) && self.entries().len() > 0 ==> r == self.entries()
                .last().0,
    {
        proof {
            if keys_ascending(self.entries@) && self.entries@.len() > 0 {
                lemma_max_is_last(self.entries@);
            }
        }
        let n = self.entries.len();
        let mut best: u64 = 0;
        let mut i: usize = 0;
        while i < n
            invariant
                n == self.entries@.len(),
                i <= n,
                best == max_key(self.entries@.subrange(0, i as int)),
            decreases n - i,
        {
            proof {
                assert(self.entries@.subrange(0, i + 1 as int).drop_last() =~= self.entries@
                    .subrange(0, i as int));
            }
            if self.entries[i].0 > best {
                best = self.entries[i].0;
            }
            i += 1;
        }
        proof {
            assert(self.entries@.subrange(0, n as int) =~= self.entries@);
        }
        best
    }
}

impl<K: StorageKey, V: Clone> Storage<K, V> for GenericStorage<K, V> {
    closed spec fn entries(&self) -> Seq<(K, V)> {
        self.entries@
    }

    closed spec fn store_name(&self) -> Seq<char> {
        self.name@
    }

    fn name(&self) -> (r: String) {
        self.name.clone()
    }
}

impl<K: StorageKey, V: Clone> StorageQueryable<K, V> for GenericStorage<K, V> {
    fn size(&self) -> (r: u64) {
        self.entries.len() as u64
    }

    fn get(&self, key: K) -> (r: CanisterResult<(K, V)>) {
        match self.find_index(&key) {
            Some(i) => {
                proof {
                    lemma_map_of_index(self.entries@, i as int);
                }
                let value = self.entries[i].1.clone();
                Ok((key, value))
            },
            None => {
                proof {
                    lemma_map_of_contains(self.entries@, key@);
                }
                Err(ApiError::not_found().add_method_name("get").add_info(self.name.as_str()))
            },
        }
    }

    fn get_opt(&self, key: K) -> (r: Option<(K, V)>) {
        match self.find_index(&key) {
            Some(i) => {
                proof {
                    lemma_map_of_index(self.entries@, i as int);
                }
                let value = self.entries[i].1.clone();
                Some((key, value))
            },
            None => {
                proof {
                    lemma_map_of_contains(self.entries@, key@);
                }
                None
            },
        }
    }

    fn get_many(&self, keys: Vec<K>) -> (r: Vec<(K, V)>) {
        let ghost m = map_of(self.entries@);
        let ghost kvs = key_views(keys@);
        let n = keys.len();
        let mut out: Vec<(K, V)> = Vec::new();
        let mut j: usize = 0;
        while j < n
            invariant
                n == keys@.len(),
                j <= n,
                unique_keys(self.entries@),
                m == map_of(self.entries@),
                kvs == key_views(keys@),
                ({
                    let found = keys_found::<K, V>(m, kvs.subrange(0, j as int));
                    &&& out@.len() == found.len()
                    &&& forall|i: int|
                        0 <= i < out@.len() ==> out@[i].0@ == found[i] && m.contains_key(found[i])
                            && cloned(m[found[i]], out@[i].1)
                }),
            decreases n - j,
        {
            proof {
                assert(kvs.subrange(0, j + 1 as int).drop_last() =~= kvs.subrange(0, j as int));
                assert(kvs.subrange(0, j + 1 as int).last() == kvs[j as int]);
                assert(kvs[j as int] == keys@[j as int]@);
            }
            let ghost found0 = keys_found::<K, V>(m, kvs.subrange(0, j as int));
            let ghost found1 = keys_found::<K, V>(m, kvs.subrange(0, j + 1 as int));
            match self.find_index(&keys[j]) {
                Some(i) => {
                    proof {
                        lemma_map_of_index(self.entries@, i as int);
                        assert(m.contains_key(kvs[j as int]));
                        assert(found1 == found0.push(kvs[j as int]));
                        assert(m[kvs[j as int]] == self.entries@[i as int].1);
                    }
                    let k = keys[j].key_clone();
                    let v = self.entries[i].1.clone();
                    out.push((k, v));
                    proof {
                        assert(out@.len() == found1.len());
                        assert(forall|p: int|
                            0 <= p < out@.len() - 1 ==> out@[p] == out@.drop_last()[p]
                                && found1[p] == found0[p]);
                    }
                },
                None => {
                    proof {
                        lemma_map_of_contains(self.entries@, keys@[j as int]@);
                        assert(!m.contains_key(kvs[j as int]));
                        assert(found1 == found0);
                    }
                },
            }
            j += 1;
        }
        proof {
            assert(kvs.subrange(0, n as int) =~= kvs);
        }
        out
    }

    fn get_all(&self) -> (r: Vec<(K, V)>) {
        let n = self.entries.len();
        let mut out: Vec<(K, V)> = Vec::new();
        let mut i: usize = 0;
        while i < n
            invariant
                n == self.entries@.len(),
                i <= n,
                out@.len() == i,
                forall|j: int|
                    0 <= j < i ==> out@[j].0@ == self.entries@[j].0@ && cloned(
                        self.entries@[j].1,
                        out@[j].1,
                    ),
            decreases n - i,
        {
            let k = self.entries[i].0.key_clone();
            let v = self.entries[i].1.clone();
            out.push((k, v));
            i += 1;
        }
        proof {
            assert forall|p: int, q: int|
                0 <= p < q < out@.len() implies K::le_view(out@[p].0@, out@[q].0@) by {
                assert(out@[p].0@ == self.entries@[p].0@);
                assert(out@[q].0@ == self.entries@[q].0@);
            }
        }
        out
    }

    fn find<F: Filter<K, V>>(&self, filter: &F) -> (r: Option<(K, V)>) {
        let n = self.entries.len();
        let mut i: usize = 0;
        while i < n
            invariant
                n == self.entries@.len(),
                i <= n,
                keys_ascending(self.entries@),
                forall|j: int|
                    0 <= j < i ==> !filter.matches_spec(&self.entries@[j].0, &self.entries@[j].1),
            decreases n - i,
        {
            if filter.matches(&self.entries[i].0, &self.entries[i].1) {
                let k = self.entries[i].0.key_clone();
                let v = self.entries[i].1.clone();
                proof {
                    let wi = i as int;
                    assert(0 <= wi < self.entries().len());
                    assert(filter.matches_spec(&self.entries()[wi].0, &self.entries()[wi].1));
                    assert(forall|j: int|
                        0 <= j < wi ==> !filter.matches_spec(
                            &self.entries()[j].0,
                            &self.entries()[j].1,
                        ));
                    assert(k@ == self.entries()[wi].0@);
                    assert(cloned(self.entries()[wi].1, v));
                    assert forall|j: int|
                        (0 <= j < self.entries().len() && filter.matches_spec(
                            &self.entries()[j].0,
                            &self.entries()[j].1,
                        )) implies K::le_view(k@, self.entries()[j].0@) by {
                        assert(j >= wi);
                        if j == wi {
                            K::le_view_total(k@, k@);
                        }
                    }
                }
                return Some((k, v));
            }
            i += 1;
        }
        None
    }

    fn filter<F: Filter<K, V>>(&self, filter: &F) -> (r: Vec<(K, V)>) {
        let n = self.entries.len();
        let mut out: Vec<(K, V)> = Vec::new();
        let mut i: usize = 0;
        while i < n
            invariant
                n == self.entries@.len(),
                i <= n,
                ({
                    let kept = filtered_entries(self.entries@.subrange(0, i as int), filter);
                    &&& out@.len() == kept.len()
                    &&& forall|j: int|
                        0 <= j < out@.len() ==> out@[j].0@ == kept[j].0@ && cloned(
                            kept[j].1,
                            out@[j].1,
                        )
                }),
            decreases n - i,
        {
            proof {
                assert(self.entries@.subrange(0, i + 1 as int).drop_last() =~= self.entries@
                    .subrange(0, i as int));
                assert(self.entries@.subrange(0, i + 1 as int).last() == self.entries@[i as int]);
            }
            if filter.matches(&self.entries[i].0, &self.entries[i].1) {
                let k = self.entries[i].0.key_clone();
                let v = self.entries[i].1.clone();
                out.push((k, v));
            }
            i += 1;
        }
        proof {
            assert(self.entries@.subrange(0, n as int) =~= self.entries@);
            lemma_filtered_ascending(self.entries@, filter);
            let kept = filtered_entries(self.entries@, filter);
            assert forall|p: int, q: int|
                0 <= p < q < out@.len() implies K::le_view(out@[p].0@, out@[q].0@) by {
                assert(out@[p].0@ == kept[p].0@);
                assert(out@[q].0@ == kept[q].0@);
            }
        }
        out
    }

    fn contains_key(&self, key: K) -> (r: bool) {
        match self.find_index(&key) {
            Some(i) => {
                proof {
                    lemma_map_of_index(self.entries@, i as int);
                }
                true
            },
            None => {
                proof {
                    lemma_map_of_contains(self.entries@, key@);
                }
                false
            },
        }
    }
}

impl<K: StorageKey, V: Clone> StorageUpdateable<K, V> for GenericStorage<K, V> {
    fn update(&mut self, key: K, value: V) -> (r: CanisterResult<(K, V)>) {
        match self.find_index(&key) {
            Some(i) => {
                proof {
                    lemma_map_of_index(self.entries@, i as int);
                }
                let ghost pre = self.entries@;
                let ret_k = key.key_clone();
                let ret_v = value.clone();
                self.entries.remove(i);
                self.entries.insert(i, (key, value));
                proof {
                    assert(self.entries@ =~= pre.update(i as int, (key, value)));
                    lemma_map_of_update(pre, i as int, key, value);
                    lemma_ascending_update(pre, i as int, key, value);
                }
                Ok((ret_k, ret_v))
            },
            None => {
                proof {
                    lemma_map_of_contains(self.entries@, key@);
                }
                Err(
                    ApiError::not_found().add_method_name("update").add_info(
                        self.name.as_str(),
                    ).add_message("Key does not exist"),
                )
            },
        }
    }

    fn upsert(&mut self, key: K, value: V) -> (r: CanisterResult<(K, V)>) {
        let ret_k = key.key_clone();
        let ret_v = value.clone();
        match self.find_index(&key) {
            Some(i) => {
                proof {
                    lemma_map_of_index(self.entries@, i as int);
                }
                let ghost pre = self.entries@;
                self.entries.remove(i);
                self.entries.insert(i, (key, value));
                proof {
                    assert(self.entries@ =~= pre.update(i as int, (key, value)));
                    lemma_map_of_update(pre, i as int, key, value);
                    lemma_ascending_update(pre, i as int, key, value);
                }
            },
            None => {
                proof {
                    lemma_map_of_contains(self.entries@, key@);
                }
                ordered_insert_pairs(&mut self.entries, key, value);
            },
        }
        Ok((ret_k, ret_v))
    }

    fn remove(&mut self, key: K) -> (r: CanisterResult<()>) {
        match self.find_index(&key) {
            Some(i) => {
                proof {
                    lemma_map_of_index(self.entries@, i as int);
                    lemma_map_of_remove(self.entries@, i as int);
                    lemma_ascending_remove(self.entries@, i as int);
                }
                self.entries.remove(i);
                Ok(())
            },
            None => {
                proof {
                    lemma_map_of_contains(self.entries@, key@);
                }
                Err(
                    ApiError::not_found().add_method_name("remove").add_info(
                        self.name.as_str(),
                    ).add_message("Key does not exist"),
                )
            },
        }
    }

    fn remove_many(&mut self, keys: Vec<K>) {
        let ghost orig = self.entries@;
        let ghost kvs = key_views(keys@);
        let n = keys.len();
        let mut j: usize = 0;
        proof {
            assert(map_of(self.entries@) =~= map_of(orig).remove_keys(
                kvs.subrange(0, 0).to_set(),
            ));
        }
        while j < n
            invariant
                n == keys@.len(),
                kvs == key_views(keys@),
                unique_keys(self.entries@),
                keys_ascending(self.entries@),
                self.store_name() == old(self).store_name(),
                map_of(self.entries@) == map_of(orig).remove_keys(
                    kvs.subrange(0, j as int).to_set(),
                ),
                j <= n,
            decreases n - j,
        {
            let ghost pre = self.entries@;
            let ghost target = kvs[j as int];
            let ghost s0 = kvs.subrange(0, j as int).to_set();
            let ghost s1 = kvs.subrange(0, j + 1 as int).to_set();
            proof {
                assert(target == keys@[j as int]@);
                let sq1 = kvs.subrange(0, j + 1 as int);
                let sq0 = kvs.subrange(0, j as int);
                assert_sets_equal!(s1 == s0.insert(target), kv => {
                    if sq1.contains(kv) {
                        let w = choose|w: int| 0 <= w < sq1.len() && sq1[w] == kv;
                        if w < j {
                            assert(sq0[w] == kv);
                            assert(sq0.contains(kv));
                        } else {
                            assert(kv == target);
                        }
                    }
                    if sq0.contains(kv) {
                        let w = choose|w: int| 0 <= w < sq0.len() && sq0[w] == kv;
                        assert(sq1[w] == kv);
                        assert(sq1.contains(kv));
                    }
                    if target == kv {
                        assert(sq1[j as int] == kv);
                        assert(sq1.contains(kv));
                    }
                    assert(s1.contains(kv) == sq1.contains(kv));
                    assert(s0.contains(kv) == sq0.contains(kv));
                });
            }
            match self.find_index(&keys[j]) {
                Some(i) => {
                    proof {
                        lemma_map_of_index(pre, i as int);
                        lemma_map_of_remove(pre, i as int);
                        lemma_ascending_remove(pre, i as int);
                    }
                    self.entries.remove(i);
                    proof {
                        assert(map_of(self.entries@) == map_of(pre).remove(target));
                        assert(map_of(pre).remove(target) =~= map_of(orig).remove_keys(s1));
                    }
                },
                None => {
                    proof {
                        lemma_map_of_contains(pre, keys@[j as int]@);
                        assert(!map_of(pre).contains_key(target));
                        assert(map_of(pre) =~= map_of(orig).remove_keys(s1));
                    }
                },
            }
            j += 1;
        }
        proof {
            assert(kvs.subrange(0, n as int) =~= kvs);
        }
    }

    fn clear(&mut self) {
        self.entries = Vec::new();
    }
}

impl<V: Clone> StorageInsertable<V> for GenericStorage<u64, V> {
    fn insert<I: IDIterStorage>(&mut self, ids: &mut I, value: V) -> (r: CanisterResult<
        (u64, V),
    >) {
        let name = self.name.clone();
        let seed = self.get_last_key();
        match ids.next(name.as_str(), seed) {
            Err(e) => Err(e),
            Ok(k) => {
                match self.find_index(&k) {
                    Some(i) => {
                        proof {
                            lemma_map_of_index(self.entries@, i as int);
                        }
                        Err(
                            ApiError::duplicate().add_method_name("insert").add_info(
                                self.name.as_str(),
                            ).add_message("Key already exists"),
                        )
                    },
                    None => {
                        proof {
                            lemma_map_of_contains(self.entries@, k);
                        }
                        let ret_v = value.clone();
                        ordered_insert_pairs(&mut self.entries, k, value);
                        Ok((k, ret_v))
                    },
                }
            },
        }
    }
}

impl<K: StorageKey, V: Clone> StorageInsertableByKey<K, V> for GenericStorage<K, V> {
    fn insert_by_key(&mut self, key: K, value: V) -> (r: CanisterResult<(K, V)>) {
        match self.find_index(&key) {
            Some(i) => {
                proof {
                    lemma_map_of_index(self.entries@, i as int);
                }
                Err(
                    ApiError::duplicate().add_method_name("insert_by_key").add_info(
                        self.name.as_str(),
                    ).add_message("Key already exists"),
                )
            },
            None => {
                proof {
                    lemma_map_of_contains(self.entries@, key@);
                }
                let ret_k = key.key_clone();
                let ret_v = value.clone();
                ordered_insert_pairs(&mut self.entries, key, value);
                Ok((ret_k, ret_v))
            },
        }
    }
}

} // verus!
