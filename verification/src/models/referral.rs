//! Referrals: the invitation one profile extends to another, with a fixed
//! expiration window.

use vstd::prelude::*;

verus! {

/// How long a referral stays valid, in nanoseconds (one week).
pub const REFERRAL_EXPIRATION: u64 = 604800000000000;

/// A pending referral.
#[derive(Clone, Copy, Debug, PartialEq, Eq, Structural)]
pub struct Referral {
    pub created_at: u64,
}

impl Referral {
    /// A referral created now.
    pub fn new(now: u64) -> (r: Self)
        ensures
            r.created_at == now,
    {
        Referral { created_at: now }
    }

    /// Whether the referral's window has passed.
    pub fn is_expired(&self, now: u64) -> (r: bool)
        requires
            now >= self.created_at,
        ensures
            r == (now - self.created_at > REFERRAL_EXPIRATION),
    {
        now - self.created_at > REFERRAL_EXPIRATION
    }
}

/// The lifecycle state of a referral.
#[derive(Clone, Copy, Debug, PartialEq, Eq, Structural)]
pub enum ReferralStatus {
    Created,
    Accepted,
}

impl Default for ReferralStatus {
    /// A referral starts out merely created.
    fn default() -> (r: Self)
        ensures
            r == ReferralStatus::Created,
    {
        ReferralStatus::Created
    }
}

} // verus!
