//! The filter contract: a predicate over the entries of one entity type.
//!
//! A query may supply a list of filters; the list is combined as the logical
//! AND of its members. A single filter variant may itself express an
//! OR-like condition (such as membership in a set of ids).

use vstd::prelude::*;

verus! {

/// A predicate over (key, value) pairs of one entity type.
pub trait Filter<K, V> {
    /// What the predicate holds of.
    spec fn matches_spec(&self, key: &K, value: &V) -> bool;

    /// The run-time test, faithful to `matches_spec`.
    fn matches(&self, key: &K, value: &V) -> (r: bool)
        ensures
            r == self.matches_spec(key, value),
    ;
}

/// The conjunction of a list of filters.
pub open spec fn matches_all_spec<K, V, F: Filter<K, V>>(
    filters: Seq<F>,
    key: &K,
    value: &V,
) -> bool {
    forall|i: int| 0 <= i < filters.len() ==> #[trigger] filters[i].matches_spec(key, value)
}

/// An entry passes a list of filters exactly when it passes every one of
/// them: the list is a logical AND.
pub fn matches_all<K, V, F: Filter<K, V>>(filters: &Vec<F>, key: &K, value: &V) -> (r: bool)
    ensures
        r == matches_all_spec(filters@, key, value),
{
    let n = filters.len();
    let mut i: usize = 0;
    while i < n
        invariant
            n == filters@.len(),
            i <= n,
            forall|j: int| 0 <= j < i ==> #[trigger] filters@[j].matches_spec(key, value),
        decreases n - i,
    {
        if !filters[i].matches(key, value) {
            return false;
        }
        i += 1;
    }
    true
}

} // verus!
