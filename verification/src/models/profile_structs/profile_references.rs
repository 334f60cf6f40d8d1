//! What a profile points at: interests, subjects, memberships, wallets,
//! relations and referrals.

use vstd::prelude::*;

use crate::models::referral::Referral;
use crate::models::responses::UserNotifications;
use crate::models::subject::Subject;
use crate::models::support::Wallet;
use crate::principal::PrincipalId;

verus! {

/// The reference lists a profile keeps.
#[derive(Clone, Debug)]
pub struct ProfileReferences {
    pub skills: Vec<u32>,
    pub interests: Vec<u32>,
    pub causes: Vec<u32>,
    pub starred: Vec<Subject>,
    pub pinned: Vec<Subject>,
    pub groups: Vec<u64>,
    pub events: Vec<u64>,
    pub notifications: UserNotifications,
    pub wallets: Vec<(String, Wallet)>,
    pub relations: Vec<(PrincipalId, String)>,
    pub referrals: Vec<(PrincipalId, Referral)>,
    pub referrer: Option<PrincipalId>,
}

impl ProfileReferences {
    /// Empty reference lists.
    pub fn new() -> (r: Self)
        ensures
            r.skills@.len() == 0,
            r.interests@.len() == 0,
            r.causes@.len() == 0,
            r.starred@.len() == 0,
            r.pinned@.len() == 0,
            r.groups@.len() == 0,
            r.events@.len() == 0,
            r.notifications.entries@.len() == 0,
            r.wallets@.len() == 0,
            r.relations@.len() == 0,
            r.referrals@.len() == 0,
            r.referrer is None,
    {
        ProfileReferences {
            skills: Vec::new(),
            interests: Vec::new(),
            causes: Vec::new(),
            starred: Vec::new(),
            pinned: Vec::new(),
            groups: Vec::new(),
            events: Vec::new(),
            notifications: UserNotifications::new(),
            wallets: Vec::new(),
            relations: Vec::new(),
            referrals: Vec::new(),
            referrer: None,
        }
    }
}

} // verus!
