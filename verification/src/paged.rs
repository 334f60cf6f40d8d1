//! The page envelope a paginated query returns.

use vstd::prelude::*;

verus! {

/// One page of results: the requested slice, the page geometry, and the
/// total matching count.
#[derive(Clone, Debug)]
pub struct PagedResponse<T> {
    pub page: usize,
    pub limit: usize,
    pub total: usize,
    pub data: Vec<T>,
}

impl<T> PagedResponse<T> {
    /// A page envelope.
    pub fn new(page: usize, limit: usize, total: usize, data: Vec<T>) -> (r: Self)
        ensures
            r == (PagedResponse { page, limit, total, data }),
    {
        PagedResponse { page, limit, total, data }
    }

    /// Whether pages after this one exist: entries remain beyond the slice
    /// this page covers.
    pub fn has_next(&self) -> (r: bool)
        ensures
            r == ((self.page + 1) * self.limit < self.total),
    {
        let p = self.page as u128;
        let l = self.limit as u128;
        proof {
            assert(p <= 0xffffffffffffffffu128);
            assert(l <= 0xffffffffffffffffu128);
            assert((p + 1) * l < 0x100000000000000000000000000000000) by (nonlinear_arith)
                requires
                    p <= 0xffffffffffffffffu128,
                    l <= 0xffffffffffffffffu128,
            ;
        }
        let consumed = (p + 1) * l;
        consumed < self.total as u128
    }
}

} // verus!
