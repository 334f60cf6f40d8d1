//! The member, invite and special-member rosters a group or event keeps.

use vstd::prelude::*;

use crate::assoc::assoc_contains;
use crate::entry_map::{map_of, unique_keys};
use crate::keys::StorageKey;
use crate::models::member::{has_role, Invite, Join};
use crate::models::role::{member_role, owner_role, Role};
use crate::principal::PrincipalId;

verus! {

/// The rosters of a group or event: members with their roles, pending
/// invites, special relations, and custom roles.
#[derive(Clone, Debug)]
pub struct Members {
    pub members: Vec<(PrincipalId, Join)>,
    pub invites: Vec<(PrincipalId, Invite)>,
    pub special_members: Vec<(PrincipalId, String)>,
    pub roles: Vec<Role>,
}

impl Members {
    /// Each roster maps an identity at most once.
    pub open spec fn wf(&self) -> bool {
        &&& unique_keys(self.members@)
        &&& unique_keys(self.invites@)
        &&& unique_keys(self.special_members@)
    }

    /// Empty rosters.
    pub fn new() -> (r: Members)
        ensures
            r.wf(),
            r.members@.len() == 0,
            r.invites@.len() == 0,
            r.special_members@.len() == 0,
            r.roles@.len() == 0,
    {
        Members {
            members: Vec::new(),
            invites: Vec::new(),
            special_members: Vec::new(),
            roles: Vec::new(),
        }
    }

    /// Rosters holding exactly the owner, with the owner role.
    pub fn new_with_owner(owner: PrincipalId, now: u64) -> (r: Members)
        ensures
            r.wf(),
            r.members@.len() == 1,
            r.members@[0].0 == owner,
            r.members@[0].1.roles@.len() == 1 && r.members@[0].1.roles@[0]@ == owner_role(),
            r.invites@.len() == 0,
            r.special_members@.len() == 0,
            r.roles@.len() == 0,
    {
        let mut join = Join::new(now);
        join.set_owner_role(now);
        let mut members: Vec<(PrincipalId, Join)> = Vec::new();
        members.push((owner, join));
        Members { members, invites: Vec::new(), special_members: Vec::new(), roles: Vec::new() }
    }

    /// Hand the owner role to `new_owner` (when it is a member) and demote
    /// every other holder of the owner role to a plain member. Invites,
    /// special members and custom roles are untouched.
    pub fn set_owner(&mut self, new_owner: PrincipalId, now: u64)
        requires
            old(self).wf(),
        ensures
            final(self).wf(),
            final(self).invites == old(self).invites,
            final(self).special_members == old(self).special_members,
            final(self).roles == old(self).roles,
            final(self).members@.len() == old(self).members@.len(),
            forall|i: int|
                0 <= i < old(self).members@.len() ==> {
                    let k = old(self).members@[i].0;
                    let j = old(self).members@[i].1;
                    let f = #[trigger] final(self).members@[i];
                    &&& f.0 == k
                    &&& (if k@ == new_owner@ {
                        f.1.roles@.len() == 1 && f.1.roles@[0]@ == owner_role() && f.1.updated_at
                            == now && f.1.created_at == now
                    } else if has_role(j.roles@, owner_role()) {
                        f.1.roles@.len() == 1 && f.1.roles@[0]@ == member_role() && f.1.updated_at
                            == now && f.1.created_at == now
                    } else {
                        f.1 == j
                    })
                },
    {
        let ghost orig = self.members@;
        let n = self.members.len();
        let mut i: usize = 0;
        while i < n
            invariant
                n == orig.len(),
                i <= n,
                self.members@.len() == n,
                self.invites == old(self).invites,
                self.special_members == old(self).special_members,
                self.roles == old(self).roles,
                unique_keys(old(self).invites@),
                unique_keys(old(self).special_members@),
                unique_keys(orig),
                forall|p: int| i <= p < n ==> self.members@[p] == orig[p],
                forall|p: int|
                    0 <= p < i ==> {
                        let k = orig[p].0;
                        let j = orig[p].1;
                        let f = #[trigger] self.members@[p];
                        &&& f.0 == k
                        &&& (if k@ == new_owner@ {
                            f.1.roles@.len() == 1 && f.1.roles@[0]@ == owner_role()
                                && f.1.updated_at == now && f.1.created_at == now
                        } else if has_role(j.roles@, owner_role()) {
                            f.1.roles@.len() == 1 && f.1.roles@[0]@ == member_role()
                                && f.1.updated_at == now && f.1.created_at == now
                        } else {
                            f.1 == j
                        })
                    },
            decreases n - i,
        {
            let is_new_owner = self.members[i].0.key_eq(&new_owner);
            let holds_owner = self.members[i].1.has_owner_role();
            if is_new_owner {
                let ghost pre = self.members@;
                let (k, mut j) = self.members.remove(i);
                j.set_owner_role(now);
                self.members.insert(i, (k, j));
                proof {
                    assert(self.members@ =~= pre.update(i as int, (k, j)));
                }
            } else if holds_owner {
                let ghost pre = self.members@;
                let (k, mut j) = self.members.remove(i);
                j.set_member_role(now);
                self.members.insert(i, (k, j));
                proof {
                    assert(self.members@ =~= pre.update(i as int, (k, j)));
                }
            }
            i += 1;
        }
        proof {
            assert(unique_keys(self.members@)) by {
                assert(forall|p: int| 0 <= p < n ==> self.members@[p].0@ == orig[p].0@);
            }
        }
    }

    /// Whether an identity is a member.
    pub fn has_member(&self, member: &PrincipalId) -> (r: bool)
        requires
            self.wf(),
        ensures
            r == map_of(self.members@).contains_key(member@),
    {
        assoc_contains(&self.members, member)
    }
}

} // verus!
