//! The sorter contract: a total order over the entries of one entity type,
//! together with a verified sorting routine shared by every implementation.
//!
//! Sorting is performed by a stable insertion sort; the contract pins the
//! result completely: it is ordered, it is a rearrangement of the input,
//! and entries comparing equal keep their input order.

use vstd::prelude::*;
use vstd::seq_lib::group_to_multiset_ensures;

verus! {

/// A total order over (key, value) pairs of one entity type.
pub trait EntryOrder<K, V>: Sized {
    /// The order relation.
    spec fn le_spec(&self, a: &(K, V), b: &(K, V)) -> bool;

    /// The order is total.
    proof fn le_total(&self, a: &(K, V), b: &(K, V))
        ensures
            self.le_spec(a, b) || self.le_spec(b, a),
    ;

    /// The order is transitive.
    proof fn le_trans(&self, a: &(K, V), b: &(K, V), c: &(K, V))
        requires
            self.le_spec(a, b),
            self.le_spec(b, c),
        ensures
            self.le_spec(a, c),
    ;

    /// The run-time comparison, faithful to `le_spec`.
    fn le(&self, a: &(K, V), b: &(K, V)) -> (r: bool)
        ensures
            r == self.le_spec(a, b),
    ;
}

/// A sorter: a total order together with a sorting routine obeying it.
pub trait Sorter<K, V>: EntryOrder<K, V> {
    /// The entries rearranged into the sorter's order, stably: the result
    /// is the stable sort of the input, so it is a rearrangement, it is
    /// ordered, and entries comparing equal keep their input order.
    fn sort(&self, entries: Vec<(K, V)>) -> (r: Vec<(K, V)>)
        ensures
            r@ == stable_sort_by(self, entries@),
            r@.to_multiset() == entries@.to_multiset(),
            forall|i: int, j: int| 0 <= i < j < r@.len() ==> self.le_spec(&r@[i], &r@[j]),
    ;
}

/// The element placed after every element at or below it: one step of a
/// stable insertion sort.
pub open spec fn insert_sorted<K, V, S: EntryOrder<K, V>>(
    sorter: &S,
    s: Seq<(K, V)>,
    x: (K, V),
) -> Seq<(K, V)>
    decreases s.len(),
{
    if s.len() > 0 && sorter.le_spec(&s[0], &x) {
        seq![s[0]] + insert_sorted(sorter, s.drop_first(), x)
    } else {
        seq![x] + s
    }
}

/// The stable sort of a sequence: elements are taken left to right and each
/// is placed after every earlier element at or below it, so elements
/// comparing equal keep their input order.
pub open spec fn stable_sort_by<K, V, S: EntryOrder<K, V>>(sorter: &S, s: Seq<(K, V)>) -> Seq<
    (K, V),
>
    decreases s.len(),
{
    if s.len() == 0 {
        Seq::empty()
    } else {
        insert_sorted(sorter, stable_sort_by(sorter, s.drop_last()), s.last())
    }
}

/// A stable insert is an insertion at the position the scan finds: the
/// first element not at or below the new one.
proof fn lemma_insert_sorted_at<K, V, S: EntryOrder<K, V>>(
    sorter: &S,
    s: Seq<(K, V)>,
    p: int,
    x: (K, V),
)
    requires
        0 <= p <= s.len(),
        forall|q: int| 0 <= q < p ==> sorter.le_spec(&s[q], &x),
        p < s.len() ==> !sorter.le_spec(&s[p], &x),
    ensures
        insert_sorted(sorter, s, x) == s.insert(p, x),
    decreases s.len(),
{
    if s.len() == 0 {
        assert(insert_sorted(sorter, s, x) =~= s.insert(0, x));
    } else if p == 0 {
        assert(insert_sorted(sorter, s, x) =~= s.insert(0, x));
    } else {
        assert(sorter.le_spec(&s[0], &x));
        let rest = s.drop_first();
        assert(forall|q: int| 0 <= q < rest.len() ==> rest[q] == s[q + 1]);
        lemma_insert_sorted_at(sorter, rest, p - 1, x);
        assert(insert_sorted(sorter, s, x) =~= s.insert(p, x)) by {
            assert(insert_sorted(sorter, s, x) == seq![s[0]] + rest.insert(p - 1, x));
        }
    }
}

/// Every pair of positions respects the sorter's order.
pub open spec fn entries_sorted<K, V, S: EntryOrder<K, V>>(sorter: &S, s: Seq<(K, V)>) -> bool {
    forall|i: int, j: int| 0 <= i < j < s.len() ==> sorter.le_spec(&s[i], &s[j])
}

/// The position at which the element at `i` belongs inside the sorted
/// prefix `0..i`.
fn insert_position<K, V, S: EntryOrder<K, V>>(sorter: &S, v: &Vec<(K, V)>, i: usize) -> (p: usize)
    requires
        i < v@.len(),
        forall|a: int, b: int| 0 <= a < b < i ==> sorter.le_spec(&v@[a], &v@[b]),
    ensures
        p <= i,
        forall|q: int| 0 <= q < p ==> sorter.le_spec(&v@[q], &v@[i as int]),
        forall|q: int| p <= q < i ==> sorter.le_spec(&v@[i as int], &v@[q]),
        p < i ==> !sorter.le_spec(&v@[p as int], &v@[i as int]),
{
    let mut p: usize = 0;
    while p < i
        invariant
            p <= i,
            i < v@.len(),
            forall|a: int, b: int| 0 <= a < b < i ==> sorter.le_spec(&v@[a], &v@[b]),
            forall|q: int| 0 <= q < p ==> sorter.le_spec(&v@[q], &v@[i as int]),
        decreases i - p,
    {
        if !sorter.le(&v[p], &v[i]) {
            proof {
                sorter.le_total(&v@[p as int], &v@[i as int]);
                assert forall|q: int| p <= q < i implies sorter.le_spec(&v@[i as int], &v@[q]) by {
                    if p < q {
                        sorter.le_trans(&v@[i as int], &v@[p as int], &v@[q]);
                    }
                }
            }
            return p;
        }
        p += 1;
    }
    p
}

/// Insertion sort over entry pairs, driven by the sorter's comparison: the
/// result is exactly the stable sort of the input.
pub fn sort_entries<K, V, S: EntryOrder<K, V>>(sorter: &S, entries: Vec<(K, V)>) -> (r: Vec<(K, V)>)
    ensures
        r@ == stable_sort_by(sorter, entries@),
        r@.to_multiset() == entries@.to_multiset(),
        entries_sorted(sorter, r@),
{
    broadcast use group_to_multiset_ensures;

    let mut v = entries;
    let ghost orig = v@;
    if v.len() <= 1 {
        proof {
            if orig.len() == 1 {
                assert(orig.drop_last().len() == 0);
                assert(stable_sort_by(sorter, orig.drop_last()) =~= Seq::<(K, V)>::empty());
                assert(stable_sort_by(sorter, orig) =~= orig) by {
                    assert(insert_sorted(
                        sorter,
                        stable_sort_by(sorter, orig.drop_last()),
                        orig.last(),
                    ) =~= seq![orig.last()]);
                }
            } else {
                assert(stable_sort_by(sorter, orig) =~= orig);
            }
        }
        return v;
    }
    proof {
        assert(orig.subrange(0, 1).drop_last().len() == 0);
        assert(stable_sort_by(sorter, orig.subrange(0, 1).drop_last()) =~= Seq::<(K, V)>::empty());
        assert(stable_sort_by(sorter, orig.subrange(0, 1)) =~= orig.subrange(0, 1)) by {
            assert(insert_sorted(
                sorter,
                stable_sort_by(sorter, orig.subrange(0, 1).drop_last()),
                orig.subrange(0, 1).last(),
            ) =~= seq![orig[0]]);
        }
    }
    let mut i: usize = 1;
    while i < v.len()
        invariant
            1 <= i <= v@.len(),
            v@.len() == orig.len(),
            v@.to_multiset() == orig.to_multiset(),
            forall|a: int, b: int| 0 <= a < b < i ==> sorter.le_spec(&v@[a], &v@[b]),
            v@.subrange(0, i as int) == stable_sort_by(sorter, orig.subrange(0, i as int)),
            v@.subrange(i as int, v@.len() as int) == orig.subrange(
                i as int,
                orig.len() as int,
            ),
        decreases v@.len() - i,
    {
        let ghost pre = v@;
        let p = insert_position(sorter, &v, i);
        let x = v.remove(i);
        v.insert(p, x);
        proof {
            let pi = p as int;
            let ii = i as int;
            let moved = pre[ii];
            assert(v@ == pre.remove(ii).insert(pi, moved));
            assert(moved == orig[ii]) by {
                assert(pre.subrange(ii, pre.len() as int)[0] == pre[ii]);
                assert(orig.subrange(ii, orig.len() as int)[0] == orig[ii]);
            }
            assert(v@.subrange(0, ii + 1) == stable_sort_by(
                sorter,
                orig.subrange(0, ii + 1),
            )) by {
                let sorted_pre = pre.subrange(0, ii);
                assert(forall|q: int| 0 <= q < ii ==> sorted_pre[q] == pre[q]);
                lemma_insert_sorted_at(sorter, sorted_pre, pi, moved);
                assert(v@.subrange(0, ii + 1) =~= sorted_pre.insert(pi, moved));
                assert(orig.subrange(0, ii + 1).drop_last() =~= orig.subrange(0, ii));
                assert(orig.subrange(0, ii + 1).last() == orig[ii]);
                assert(stable_sort_by(sorter, orig.subrange(0, ii + 1)) == insert_sorted(
                    sorter,
                    stable_sort_by(sorter, orig.subrange(0, ii)),
                    orig[ii],
                ));
            }
            assert(v@.subrange(ii + 1, v@.len() as int) == orig.subrange(
                ii + 1,
                orig.len() as int,
            )) by {
                assert forall|q: int| ii + 1 <= q < v@.len() implies v@[q] == orig[q] by {
                    assert(v@[q] == pre.remove(ii).insert(pi, moved)[q]);
                    assert(pre.remove(ii).insert(pi, moved)[q] == pre.remove(ii)[q - 1]);
                    assert(pre.remove(ii)[q - 1] == pre[q]);
                    assert(pre.subrange(ii, pre.len() as int)[q - ii] == orig.subrange(
                        ii,
                        orig.len() as int,
                    )[q - ii]);
                }
                assert(v@.subrange(ii + 1, v@.len() as int) =~= orig.subrange(
                    ii + 1,
                    orig.len() as int,
                ));
            }
            assert(v@.to_multiset() == orig.to_multiset()) by {
                broadcast use vstd::multiset::group_multiset_axioms;

                vstd::seq_lib::to_multiset_remove(pre, ii);
                vstd::seq_lib::to_multiset_insert(pre.remove(ii), pi, moved);
                vstd::seq_lib::to_multiset_contains(pre, moved);
                assert(pre.contains(moved));
                assert(v@.to_multiset() =~= pre.to_multiset());
            }
            assert forall|a: int, b: int| 0 <= a < b < i + 1 implies sorter.le_spec(
                &v@[a],
                &v@[b],
            ) by {
                assert(forall|q: int|
                    0 <= q <= ii ==> v@[q] == (if q < pi {
                        pre[q]
                    } else if q == pi {
                        moved
                    } else {
                        pre[q - 1]
                    }));
                if a < pi && b < pi {
                } else if a < pi && b == pi {
                } else if a < pi && b > pi {
                } else if a == pi && b > pi {
                } else {
                    assert(pi < a < b);
                }
            }
        }
        i += 1;
    }
    proof {
        assert(orig.subrange(0, orig.len() as int) =~= orig);
        assert(v@.subrange(0, v@.len() as int) =~= v@);
    }
    v
}

} // verus!
