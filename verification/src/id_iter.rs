//! The per-kind monotonic id allocator.
//!
//! For every kind the allocator remembers the last issued id. `next` reads
//! it (or, for a kind that never issued one, a seed derived from the largest
//! key already present in that kind's data store), increments it by one,
//! persists the new value and returns it. The counter never decreases and
//! is never reset, so an id is never reissued — not even after the kind's
//! data store is wiped.
//!
//! Overflow of the counter is rejected: once a counter reaches the largest
//! representable id, `next` fails with an `Unexpected` error and leaves the
//! allocator unchanged.

use vstd::prelude::*;

use crate::api_error::{ApiError, ApiErrorKind, CanisterResult};
use crate::assoc::ordered_insert_pairs;
use crate::entry_map::{keys_ascending, lemma_ascending_update, lemma_map_of_contains,
    lemma_map_of_index, lemma_map_of_update, map_of, unique_keys};

verus! {

/// The value `next` increments: the stored counter, or the seed for a kind
/// with no counter yet.
pub open spec fn next_base(counters: Map<Seq<char>, u64>, kind: Seq<char>, seed: u64) -> u64 {
    if counters.contains_key(kind) {
        counters[kind]
    } else {
        seed
    }
}

/// Whether `next` can succeed without overflowing.
pub open spec fn next_ok(counters: Map<Seq<char>, u64>, kind: Seq<char>, seed: u64) -> bool {
    next_base(counters, kind, seed) < u64::MAX
}

/// The id a successful `next` returns.
pub open spec fn next_value(counters: Map<Seq<char>, u64>, kind: Seq<char>, seed: u64) -> u64 {
    (next_base(counters, kind, seed) + 1) as u64
}

/// The counters after a successful `next`.
pub open spec fn next_counters(
    counters: Map<Seq<char>, u64>,
    kind: Seq<char>,
    seed: u64,
) -> Map<Seq<char>, u64> {
    counters.insert(kind, next_value(counters, kind, seed))
}

/// A store of per-kind counters.
pub trait IDIterStorage: Sized {
    /// The stored (kind, last issued id) entries.
    spec fn counter_entries(&self) -> Seq<(String, u64)>;

    /// The allocator's own name.
    fn name(&self) -> (r: String)
        ensures
            r@ == "id_iter_storage"@,
    ;

    /// The last issued id for a kind, if one was ever issued.
    fn get(&self, kind: &str) -> (r: Option<u64>)
        requires
            unique_keys(self.counter_entries()),
        ensures
            ({
                let c = map_of(self.counter_entries());
                match r {
                    Some(v) => c.contains_key(kind@) && v == c[kind@],
                    None => !c.contains_key(kind@),
                }
            }),
    ;

    /// Every (kind, last issued id) pair, in storage order: ascending by
    /// kind.
    fn get_all(&self) -> (r: Vec<(String, u64)>)
        ensures
            r@.len() == self.counter_entries().len(),
            forall|i: int|
                0 <= i < r@.len() ==> r@[i].0@ == self.counter_entries()[i].0@ && r@[i].1
                    == self.counter_entries()[i].1,
    ;

    /// The next id for a kind: one more than the stored counter, or than
    /// `seed` for a kind with no counter yet. The read, the increment and
    /// the store happen in one uninterrupted step.
    fn next(&mut self, kind: &str, seed: u64) -> (r: CanisterResult<u64>)
        requires
            unique_keys(old(self).counter_entries()),
            keys_ascending(old(self).counter_entries()),
        ensures
            unique_keys(final(self).counter_entries()),
            keys_ascending(final(self).counter_entries()),
            ({
                let c = map_of(old(self).counter_entries());
                if next_ok(c, kind@, seed) {
                    &&& r matches Ok(id) && id == next_value(c, kind@, seed)
                    &&& map_of(final(self).counter_entries()) == next_counters(c, kind@, seed)
                } else {
                    &&& r matches Err(e) && e.kind == ApiErrorKind::Unexpected && (
                    e.method_name matches Some(m) && m@ == "next"@)
                    &&& *final(self) == *old(self)
                }
            }),
    ;
}

/// The concrete allocator: a list of (kind, last issued id) pairs with
/// pairwise distinct kinds.
pub struct IdStore {
    entries: Vec<(String, u64)>,
}

impl IdStore {
    /// An allocator with no counter issued yet.
    pub fn new() -> (r: Self)
        ensures
            r.counter_entries() == Seq::<(String, u64)>::empty(),
            unique_keys(r.counter_entries()),
            keys_ascending(r.counter_entries()),
    {
        IdStore { entries: Vec::new() }
    }

    /// The position of a kind among the stored counters.
    fn find_kind(&self, kind: &str) -> (r: Option<usize>)
        ensures
            match r {
                Some(i) => i < self.counter_entries().len() && self.counter_entries()[i as int].0@
                    == kind@,
                None => forall|i: int|
                    0 <= i < self.counter_entries().len() ==> self.counter_entries()[i].0@
                        != kind@,
            },
    {
        let kind_string = String::from_str(kind);
        let n = self.entries.len();
        let mut i: usize = 0;
        while i < n
            invariant
                n == self.entries@.len(),
                i <= n,
                kind_string@ == kind@,
                forall|j: int| 0 <= j < i ==> self.entries@[j].0@ != kind@,
            decreases n - i,
        {
            if self.entries[i].0.eq(&kind_string) {
                return Some(i);
            }
            i += 1;
        }
        None
    }
}

impl IDIterStorage for IdStore {
    closed spec fn counter_entries(&self) -> Seq<(String, u64)> {
        self.entries@
    }

    fn name(&self) -> (r: String)
        ensures
            r@ == "id_iter_storage"@,
    {
        String::from_str("id_iter_storage")
    }

    fn get(&self, kind: &str) -> (r: Option<u64>) {
        match self.find_kind(kind) {
            Some(i) => {
                proof {
                    lemma_map_of_index(self.entries@, i as int);
                }
                Some(self.entries[i].1)
            },
            None => {
                proof {
                    lemma_map_of_contains(self.entries@, kind@);
                }
                None
            },
        }
    }

    fn get_all(&self) -> (r: Vec<(String, u64)>) {
        let n = self.entries.len();
        let mut out: Vec<(String, u64)> = Vec::new();
        let mut i: usize = 0;
        while i < n
            invariant
                n == self.entries@.len(),
                i <= n,
                out@.len() == i,
                forall|j: int|
                    0 <= j < i ==> out@[j].0@ == self.entries@[j].0@ && out@[j].1
                        == self.entries@[j].1,
            decreases n - i,
        {
            let kind = self.entries[i].0.clone();
            out.push((kind, self.entries[i].1));
            i += 1;
        }
        out
    }

    fn next(&mut self, kind: &str, seed: u64) -> (r: CanisterResult<u64>) {
        let found = self.find_kind(kind);
        let base: u64 = match found {
            Some(i) => {
                proof {
                    lemma_map_of_index(self.entries@, i as int);
                }
                self.entries[i].1
            },
            None => {
                proof {
                    lemma_map_of_contains(self.entries@, kind@);
                }
                seed
            },
        };
        if base == u64::MAX {
            return Err(
                ApiError::unexpected().add_method_name("next").add_info(
                    "id_iter_storage",
                ).add_message("id counter would overflow"),
            );
        }
        let id = base + 1;
        let kind_string = String::from_str(kind);
        match found {
            Some(i) => {
                let ghost pre = self.entries@;
                self.entries.remove(i);
                self.entries.insert(i, (kind_string, id));
                proof {
                    assert(self.entries@ =~= pre.update(i as int, (kind_string, id)));
                    lemma_map_of_update(pre, i as int, kind_string, id);
                    lemma_ascending_update(pre, i as int, kind_string, id);
                }
            },
            None => {
                proof {
                    lemma_map_of_contains(self.entries@, kind@);
                }
                ordered_insert_pairs(&mut self.entries, kind_string, id);
            },
        }
        Ok(id)
    }
}

/// Two successive allocations for one kind return strictly increasing ids,
/// whatever seed the second one is given: once a counter exists it alone
/// decides the next id, so no id is ever returned twice for a kind.
pub proof fn lemma_next_strictly_increasing(
    counters: Map<Seq<char>, u64>,
    kind: Seq<char>,
    seed1: u64,
    seed2: u64,
)
    requires
        next_ok(counters, kind, seed1),
        next_ok(next_counters(counters, kind, seed1), kind, seed2),
    ensures
        next_value(next_counters(counters, kind, seed1), kind, seed2) > next_value(
            counters,
            kind,
            seed1,
        ),
{
}

/// An allocation for one kind leaves every other kind's counter alone, so
/// interleaved allocations for different kinds do not disturb each other.
pub proof fn lemma_next_other_kind_independent(
    counters: Map<Seq<char>, u64>,
    kind: Seq<char>,
    other: Seq<char>,
    seed_other: u64,
    seed: u64,
)
    requires
        kind != other,
    ensures
        next_base(next_counters(counters, other, seed_other), kind, seed) == next_base(
            counters,
            kind,
            seed,
        ),
{
}

/// Wiping a kind's data store does not touch the allocator: as long as the
/// kind has issued an id before, the next id is strictly greater than the
/// stored counter, whatever seed the emptied store now provides.
pub proof fn lemma_next_after_clear(counters: Map<Seq<char>, u64>, kind: Seq<char>, seed: u64)
    requires
        counters.contains_key(kind),
        next_ok(counters, kind, seed),
    ensures
        next_value(counters, kind, seed) > counters[kind],
{
}

} // verus!
