//! A closed interval of timestamps, used by time-range filters.

use vstd::prelude::*;

verus! {

/// A closed timestamp interval `[start, end]`.
#[derive(Clone, Copy, Debug, PartialEq, Eq, Structural)]
pub struct DateRange {
    pub start: u64,
    pub end: u64,
}

impl DateRange {
    /// A range from `start` to `end`, both inclusive.
    pub fn new(start: u64, end: u64) -> (r: Self)
        ensures
            r.start == start,
            r.end == end,
    {
        DateRange { start, end }
    }

    /// The inclusive lower bound.
    pub fn start_date(&self) -> (r: u64)
        ensures
            r == self.start,
    {
        self.start
    }

    /// The inclusive upper bound.
    pub fn end_date(&self) -> (r: u64)
        ensures
            r == self.end,
    {
        self.end
    }

    /// True when the timestamp lies inside the range, bounds included.
    pub fn is_within(&self, timestamp: u64) -> (r: bool)
        ensures
            r == self.within_spec(timestamp),
    {
        self.start <= timestamp && timestamp <= self.end
    }

    /// True when the timestamp is at or after the lower bound.
    pub fn is_after_start_date(&self, timestamp: u64) -> (r: bool)
        ensures
            r == self.after_start_spec(timestamp),
    {
        self.start <= timestamp
    }

    /// Membership in the closed interval.
    pub open spec fn within_spec(&self, timestamp: u64) -> bool {
        self.start <= timestamp <= self.end
    }

    /// At or after the lower bound.
    pub open spec fn after_start_spec(&self, timestamp: u64) -> bool {
        self.start <= timestamp
    }
}

impl Default for DateRange {
    /// The default range is the single point `[0, 0]`.
    fn default() -> (r: Self)
        ensures
            r == (DateRange { start: 0, end: 0 }),
    {
        DateRange { start: 0, end: 0 }
    }
}

} // verus!
