//! The mathematical model of a store: a sequence of (key, value) entries
//! with pairwise distinct key views, ascending in the key order, and the
//! finite map it denotes.

use vstd::prelude::*;

use crate::keys::StorageKey;

verus! {

/// No two entries share a key view.
pub open spec fn unique_keys<K: StorageKey, V>(s: Seq<(K, V)>) -> bool {
    forall|i: int, j: int| 0 <= i < j < s.len() ==> s[i].0@ != s[j].0@
}

/// The finite map a sequence of entries denotes: later entries win,
/// though under `unique_keys` every key occurs at most once.
pub open spec fn map_of<K: StorageKey, V>(s: Seq<(K, V)>) -> Map<<K as View>::V, V>
    decreases s.len(),
{
    if s.len() == 0 {
        Map::empty()
    } else {
        map_of(s.drop_last()).insert(s.last().0@, s.last().1)
    }
}

/// A key view is in the map exactly when some entry carries it.
pub proof fn lemma_map_of_contains<K: StorageKey, V>(s: Seq<(K, V)>, kv: <K as View>::V)
    ensures
        map_of(s).contains_key(kv) <==> exists|i: int| 0 <= i < s.len() && s[i].0@ == kv,
    decreases s.len(),
{
    if s.len() > 0 {
        lemma_map_of_contains(s.drop_last(), kv);
        if s.last().0@ == kv {
            assert(s[s.len() - 1].0@ == kv);
        } else {
            if exists|i: int| 0 <= i < s.len() && s[i].0@ == kv {
                let i = choose|i: int| 0 <= i < s.len() && s[i].0@ == kv;
                if i < s.len() - 1 {
                    assert(s.drop_last()[i].0@ == kv);
                }
            }
        }
    }
}

/// Under `unique_keys`, the entry at `i` gives the map's value at its key.
pub proof fn lemma_map_of_index<K: StorageKey, V>(s: Seq<(K, V)>, i: int)
    requires
        unique_keys(s),
        0 <= i < s.len(),
    ensures
        map_of(s).contains_key(s[i].0@),
        map_of(s)[s[i].0@] == s[i].1,
    decreases s.len(),
{
    if i == s.len() - 1 {
    } else {
        assert(unique_keys(s.drop_last()));
        lemma_map_of_index(s.drop_last(), i);
        assert(s.drop_last()[i] == s[i]);
        assert(s[i].0@ != s.last().0@);
    }
}

/// Appending an entry with a fresh key inserts it into the map.
pub proof fn lemma_map_of_push<K: StorageKey, V>(s: Seq<(K, V)>, key: K, value: V)
    ensures
        map_of(s.push((key, value))) == map_of(s).insert(key@, value),
        unique_keys(s) && !map_of(s).contains_key(key@) ==> unique_keys(s.push((key, value))),
{
    let t = s.push((key, value));
    assert(t.drop_last() =~= s);
    assert(t.last() == (key, value));
    if unique_keys(s) && !map_of(s).contains_key(key@) {
        lemma_map_of_contains(s, key@);
        assert forall|i: int, j: int| 0 <= i < j < t.len() implies t[i].0@ != t[j].0@ by {
            if j == t.len() - 1 {
                assert(t[i] == s[i]);
            }
        }
    }
}

/// Replacing the entry at `i` by one with the same key view updates the map
/// at that key and keeps the keys unique.
pub proof fn lemma_map_of_update<K: StorageKey, V>(s: Seq<(K, V)>, i: int, key: K, value: V)
    requires
        unique_keys(s),
        0 <= i < s.len(),
        key@ == s[i].0@,
    ensures
        map_of(s.update(i, (key, value))) == map_of(s).insert(key@, value),
        unique_keys(s.update(i, (key, value))),
    decreases s.len(),
{
    let t = s.update(i, (key, value));
    assert(unique_keys(t)) by {
        assert(forall|p: int| 0 <= p < t.len() ==> t[p].0@ == s[p].0@);
    }
    if i == s.len() - 1 {
        assert(t.drop_last() =~= s.drop_last());
        assert(t.last() == (key, value));
        assert(map_of(t) == map_of(s.drop_last()).insert(key@, value));
        assert(map_of(s) == map_of(s.drop_last()).insert(s.last().0@, s.last().1));
        assert(map_of(s).insert(key@, value) =~= map_of(s.drop_last()).insert(key@, value));
    } else {
        assert(unique_keys(s.drop_last()));
        assert(s.drop_last()[i] == s[i]);
        lemma_map_of_update(s.drop_last(), i, key, value);
        assert(t.drop_last() =~= s.drop_last().update(i, (key, value)));
        assert(t.last() == s.last());
        // the two inserts commute because the keys differ
        assert(s.last().0@ != key@);
        assert(map_of(t) == map_of(s.drop_last()).insert(key@, value).insert(
            s.last().0@,
            s.last().1,
        ));
        assert(map_of(s).insert(key@, value) =~= map_of(s.drop_last()).insert(key@, value).insert(
            s.last().0@,
            s.last().1,
        ));
    }
}

/// Removing the entry at `i` removes its key from the map and keeps the
/// keys unique.
pub proof fn lemma_map_of_remove<K: StorageKey, V>(s: Seq<(K, V)>, i: int)
    requires
        unique_keys(s),
        0 <= i < s.len(),
    ensures
        map_of(s.remove(i)) == map_of(s).remove(s[i].0@),
        unique_keys(s.remove(i)),
    decreases s.len(),
{
    let t = s.remove(i);
    assert(unique_keys(t)) by {
        assert forall|p: int, q: int| 0 <= p < q < t.len() implies t[p].0@ != t[q].0@ by {
            let p0 = if p < i {
                p
            } else {
                p + 1
            };
            let q0 = if q < i {
                q
            } else {
                q + 1
            };
            assert(t[p] == s[p0]);
            assert(t[q] == s[q0]);
        }
    }
    if i == s.len() - 1 {
        assert(t =~= s.drop_last());
        lemma_map_of_contains(s.drop_last(), s[i].0@);
        assert(!map_of(s.drop_last()).contains_key(s[i].0@)) by {
            if exists|p: int| 0 <= p < s.drop_last().len() && s.drop_last()[p].0@ == s[i].0@ {
                let p = choose|p: int|
                    0 <= p < s.drop_last().len() && s.drop_last()[p].0@ == s[i].0@;
                assert(s[p].0@ == s[i].0@);
            }
        }
        assert(map_of(s).remove(s[i].0@) =~= map_of(s.drop_last()));
    } else {
        assert(unique_keys(s.drop_last()));
        lemma_map_of_remove(s.drop_last(), i);
        assert(t.drop_last() =~= s.drop_last().remove(i));
        assert(t.last() == s.last());
        assert(map_of(t) == map_of(s.drop_last()).remove(s[i].0@).insert(
            s.last().0@,
            s.last().1,
        ));
        assert(s.drop_last()[i] == s[i]);
        assert(s.last().0@ != s[i].0@);
        assert(map_of(s).remove(s[i].0@) =~= map_of(s.drop_last()).remove(s[i].0@).insert(
            s.last().0@,
            s.last().1,
        ));
    }
}


/// Entries ascend in the key order; with `unique_keys` the ascent is
/// strict, so the order of a store's entries is determined by its keys.
pub open spec fn keys_ascending<K: StorageKey, V>(s: Seq<(K, V)>) -> bool {
    forall|i: int, j: int| #![trigger s[i], s[j]]
        0 <= i < j < s.len() ==> K::le_view(s[i].0@, s[j].0@)
}

/// A fresh entry placed at its key's position: after every entry whose key
/// is strictly below it, before the rest.
pub open spec fn ordered_insert<K: StorageKey, V>(s: Seq<(K, V)>, key: K, value: V) -> Seq<(K, V)>
    decreases s.len(),
{
    if s.len() == 0 {
        seq![(key, value)]
    } else if K::le_view(s[0].0@, key@) && s[0].0@ != key@ {
        seq![s[0]] + ordered_insert(s.drop_first(), key, value)
    } else {
        seq![(key, value)] + s
    }
}

/// Prepending an entry with a fresh key inserts it into the map.
proof fn lemma_map_of_prepend<K: StorageKey, V>(pair: (K, V), s: Seq<(K, V)>)
    requires
        forall|i: int| 0 <= i < s.len() ==> s[i].0@ != pair.0@,
    ensures
        map_of(seq![pair] + s) == map_of(s).insert(pair.0@, pair.1),
    decreases s.len(),
{
    let t = seq![pair] + s;
    if s.len() == 0 {
        assert(t.len() == 1);
        assert(t.last() == pair);
        assert(map_of(t) == map_of(t.drop_last()).insert(pair.0@, pair.1));
        assert(t.drop_last().len() == 0);
        assert(map_of(t.drop_last()) == Map::<<K as View>::V, V>::empty());
        assert(map_of(s) == Map::<<K as View>::V, V>::empty());
        assert(map_of(t) =~= map_of(s).insert(pair.0@, pair.1));
    } else {
        assert(t.drop_last() =~= seq![pair] + s.drop_last());
        assert(t.last() == s.last());
        lemma_map_of_prepend(pair, s.drop_last());
        assert(s.last().0@ != pair.0@) by {
            assert(s[s.len() - 1].0@ != pair.0@);
        }
        assert(map_of(t) =~= map_of(s).insert(pair.0@, pair.1));
    }
}

/// An ordered insert of a fresh key grows the map by that key, keeps the
/// keys unique, and keeps the entries ascending.
pub proof fn lemma_ordered_insert<K: StorageKey, V>(s: Seq<(K, V)>, key: K, value: V)
    requires
        unique_keys(s),
        keys_ascending(s),
        forall|i: int| 0 <= i < s.len() ==> s[i].0@ != key@,
    ensures
        ({
            let t = ordered_insert(s, key, value);
            &&& t.len() == s.len() + 1
            &&& unique_keys(t)
            &&& keys_ascending(t)
            &&& map_of(t) == map_of(s).insert(key@, value)
        }),
    decreases s.len(),
{
    let t = ordered_insert(s, key, value);
    if s.len() == 0 {
        assert(t == seq![(key, value)]);
        assert(t.len() == 1);
        assert(t.last() == (key, value));
        assert(map_of(t) == map_of(t.drop_last()).insert(key@, value));
        assert(t.drop_last().len() == 0);
        assert(map_of(t.drop_last()) == Map::<<K as View>::V, V>::empty());
        assert(map_of(s) == Map::<<K as View>::V, V>::empty());
        assert(map_of(t) =~= map_of(s).insert(key@, value));
    } else if K::le_view(s[0].0@, key@) && s[0].0@ != key@ {
        let rest = s.drop_first();
        let ti = ordered_insert(rest, key, value);
        assert(unique_keys(rest) && keys_ascending(rest)) by {
            assert(forall|q: int| 0 <= q < rest.len() ==> rest[q] == s[q + 1]);
        }
        lemma_ordered_insert(rest, key, value);
        // every key view in the tail insert is the fresh key or one of the
        // tail's keys
        assert forall|q: int| 0 <= q < ti.len() implies (ti[q].0@ == key@ || exists|w: int|
            0 <= w < rest.len() && rest[w].0@ == ti[q].0@) by {
            lemma_map_of_index(ti, q);
            assert(map_of(ti).contains_key(ti[q].0@));
            if ti[q].0@ != key@ {
                assert(map_of(rest).contains_key(ti[q].0@));
                lemma_map_of_contains(rest, ti[q].0@);
            }
        }
        assert(t =~= seq![s[0]] + ti);
        assert(unique_keys(t)) by {
            assert forall|i: int, j: int| 0 <= i < j < t.len() implies t[i].0@ != t[j].0@ by {
                if i == 0 {
                    assert(t[j] == ti[j - 1]);
                    if t[j].0@ != key@ {
                        let w = choose|w: int|
                            0 <= w < rest.len() && rest[w].0@ == ti[j - 1].0@;
                        assert(s[w + 1].0@ == t[j].0@);
                        assert(s[0].0@ != s[w + 1].0@);
                    }
                } else {
                    assert(t[i] == ti[i - 1] && t[j] == ti[j - 1]);
                }
            }
        }
        assert(keys_ascending(t)) by {
            assert forall|i: int, j: int|
                0 <= i < j < t.len() implies K::le_view(t[i].0@, t[j].0@) by {
                if i == 0 {
                    assert(t[j] == ti[j - 1]);
                    if t[j].0@ == key@ {
                        assert(K::le_view(s[0].0@, key@));
                    } else {
                        let w = choose|w: int|
                            0 <= w < rest.len() && rest[w].0@ == ti[j - 1].0@;
                        assert(K::le_view(s[0].0@, s[w + 1].0@));
                    }
                } else {
                    assert(t[i] == ti[i - 1] && t[j] == ti[j - 1]);
                }
            }
        }
        assert(forall|q: int| 0 <= q < ti.len() ==> ti[q].0@ != s[0].0@) by {
            assert forall|q: int| 0 <= q < ti.len() implies ti[q].0@ != s[0].0@ by {
                if ti[q].0@ != key@ {
                    let w = choose|w: int| 0 <= w < rest.len() && rest[w].0@ == ti[q].0@;
                    assert(s[0].0@ != s[w + 1].0@);
                }
            }
        }
        lemma_map_of_prepend(s[0], ti);
        lemma_map_of_prepend(s[0], rest);
        assert(s =~= seq![s[0]] + rest);
        assert(map_of(t) =~= map_of(s).insert(key@, value)) by {
            assert(map_of(t) == map_of(ti).insert(s[0].0@, s[0].1));
            assert(map_of(ti) == map_of(rest).insert(key@, value));
            assert(map_of(s) == map_of(rest).insert(s[0].0@, s[0].1));
        }
    } else {
        assert(t =~= seq![(key, value)] + s);
        // the fresh key is at or below the head, hence below every entry
        assert(K::le_view(key@, s[0].0@)) by {
            K::le_view_total(s[0].0@, key@);
        }
        assert(keys_ascending(t)) by {
            assert forall|i: int, j: int|
                0 <= i < j < t.len() implies K::le_view(t[i].0@, t[j].0@) by {
                if i == 0 {
                    assert(t[j] == s[j - 1]);
                    if j == 1 {
                    } else {
                        K::le_view_trans(key@, s[0].0@, s[j - 1].0@);
                    }
                } else {
                    assert(t[i] == s[i - 1] && t[j] == s[j - 1]);
                }
            }
        }
        assert(unique_keys(t)) by {
            assert(forall|i: int, j: int|
                0 < i < j < t.len() ==> t[i] == s[i - 1] && t[j] == s[j - 1]);
        }
        lemma_map_of_prepend((key, value), s);
    }
}

/// An ordered insert is an insertion at the position the scan finds: the
/// first entry whose key is not strictly below the fresh one.
pub proof fn lemma_ordered_insert_at<K: StorageKey, V>(s: Seq<(K, V)>, p: int, key: K, value: V)
    requires
        0 <= p <= s.len(),
        forall|q: int| 0 <= q < p ==> K::le_view(s[q].0@, key@) && s[q].0@ != key@,
        p < s.len() ==> !(K::le_view(s[p].0@, key@) && s[p].0@ != key@),
    ensures
        ordered_insert(s, key, value) == s.insert(p, (key, value)),
    decreases s.len(),
{
    if s.len() == 0 {
        assert(ordered_insert(s, key, value) =~= s.insert(0, (key, value)));
    } else if p == 0 {
        assert(ordered_insert(s, key, value) =~= s.insert(0, (key, value)));
    } else {
        assert(K::le_view(s[0].0@, key@) && s[0].0@ != key@);
        let rest = s.drop_first();
        assert(forall|q: int| 0 <= q < p - 1 ==> rest[q] == s[q + 1]);
        assert(p - 1 < rest.len() ==> rest[p - 1] == s[p]);
        lemma_ordered_insert_at(rest, p - 1, key, value);
        assert(ordered_insert(s, key, value) =~= s.insert(p, (key, value))) by {
            assert(ordered_insert(s, key, value) == seq![s[0]] + rest.insert(p - 1, (key, value)));
        }
    }
}


/// Replacing an entry by one with the same key view keeps the ascent.
pub proof fn lemma_ascending_update<K: StorageKey, V>(s: Seq<(K, V)>, i: int, key: K, value: V)
    requires
        keys_ascending(s),
        0 <= i < s.len(),
        key@ == s[i].0@,
    ensures
        keys_ascending(s.update(i, (key, value))),
{
    let t = s.update(i, (key, value));
    assert(forall|p: int| 0 <= p < t.len() ==> t[p].0@ == s[p].0@);
}

/// Removing an entry keeps the ascent.
pub proof fn lemma_ascending_remove<K: StorageKey, V>(s: Seq<(K, V)>, i: int)
    requires
        keys_ascending(s),
        0 <= i < s.len(),
    ensures
        keys_ascending(s.remove(i)),
{
    let t = s.remove(i);
    assert forall|p: int, q: int|
        0 <= p < q < t.len() implies K::le_view(t[p].0@, t[q].0@) by {
        let p0 = if p < i {
            p
        } else {
            p + 1
        };
        let q0 = if q < i {
            q
        } else {
            q + 1
        };
        assert(t[p] == s[p0]);
        assert(t[q] == s[q0]);
    }
}

} // verus!
