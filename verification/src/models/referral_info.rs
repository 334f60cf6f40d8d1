//! The record kept about a completed referral.

use vstd::prelude::*;

use crate::principal::PrincipalId;

verus! {

/// Who referred whom, and when.
#[derive(Clone, Debug)]
pub struct ReferralInfo {
    pub referrer: PrincipalId,
    pub referral: PrincipalId,
    pub created_at: u64,
}

impl ReferralInfo {
    /// A referral record.
    pub fn new(referrer: PrincipalId, referral: PrincipalId, created_at: u64) -> (r: Self)
        ensures
            r == (ReferralInfo { referrer, referral, created_at }),
    {
        ReferralInfo { referrer, referral, created_at }
    }
}

} // verus!
