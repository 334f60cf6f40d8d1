//! Groups, with their member rosters inlined.

use vstd::prelude::*;

use crate::assoc::{assoc_get, assoc_insert, assoc_keys, assoc_remove, has_key_view,
    key_in_vec, retain_without_key, without_key};
use crate::date_range::DateRange;
use crate::entry_map::{map_of, unique_keys};
use crate::filter::Filter;
use crate::keys::StorageKey;
use crate::models::boosted::Boost;
use crate::models::member::{has_role, Invite, Join};
use crate::models::members::Members;
use crate::models::role::{admin_role, default_role_names, default_roles, member_role,
    moderator_role, owner_role, Permission, Role};
use crate::models::support::{relation_text, Asset, InviteType, Location, Metadata, Privacy,
    PrivacyType, References, RelationType};
use crate::principal::{anonymous_bytes, PrincipalId};
use crate::sort_direction::SortDirection;
use crate::sorter::{sort_entries, EntryOrder, Sorter};
use crate::text::{contains_ci, contains_seq, le_ci, lemma_lex_le_total, lemma_lex_le_trans,
    lex_le, lower_of};

verus! {

/// A group: descriptive metadata, visibility, ownership, rosters, linked
/// wallets and events.
#[derive(Clone, Debug)]
pub struct GroupWithMembers {
    pub metadata: Metadata,
    pub privacy: Privacy,
    pub owner: PrincipalId,
    pub created_by: PrincipalId,
    pub members: Members,
    pub references: References,
    pub matrix_space_id: String,
    pub wallets: Vec<(PrincipalId, String)>,
    pub events: Vec<u64>,
    pub is_deleted: bool,
    pub updated_on: u64,
    pub created_on: u64,
}

/// The input for creating a group.
#[derive(Clone, Debug)]
pub struct PostGroup {
    pub name: String,
    pub description: String,
    pub website: String,
    pub matrix_space_id: String,
    pub location: Location,
    pub privacy: PrivacyType,
    pub privacy_gated_type_amount: Option<u64>,
    pub image: Asset,
    pub banner_image: Asset,
    pub tags: Vec<u32>,
}

/// The input for updating a group.
#[derive(Clone, Debug)]
pub struct UpdateGroup {
    pub name: String,
    pub description: String,
    pub website: String,
    pub location: Location,
    pub privacy: PrivacyType,
    pub image: Asset,
    pub privacy_gated_type_amount: Option<u64>,
    pub banner_image: Asset,
    pub tags: Vec<u32>,
}

impl GroupWithMembers {
    /// Each roster and the wallet list map an identity at most once.
    pub open spec fn wf(&self) -> bool {
        &&& self.members.wf()
        &&& unique_keys(self.wallets@)
    }

    /// The group a creation input describes, owned and created by the
    /// caller, stamped with the current time.
    pub fn from_post(group: PostGroup, caller: PrincipalId, now: u64) -> (r: Self)
        ensures
            r.wf(),
            r.metadata == (Metadata {
                name: group.name,
                description: group.description,
                website: group.website,
                location: group.location,
                image: group.image,
                banner_image: group.banner_image,
            }),
            r.privacy == (Privacy {
                privacy_type: group.privacy,
                privacy_gated_type_amount: group.privacy_gated_type_amount,
            }),
            r.owner@ == caller@,
            r.created_by@ == caller@,
            r.members.members@.len() == 1 && r.members.members@[0].0@ == caller@,
            r.members.members@[0].1.roles@.len() == 1 && r.members.members@[0].1.roles@[0]@
                == owner_role(),
            r.members.invites@.len() == 0,
            r.references.notification_id is None && r.references.tags == group.tags,
            r.matrix_space_id == group.matrix_space_id,
            r.wallets@.len() == 0,
            r.events@.len() == 0,
            !r.is_deleted,
            r.updated_on == now,
            r.created_on == now,
    {
        let owner = caller.clone();
        let created_by = caller.clone();
        GroupWithMembers {
            metadata: Metadata {
                name: group.name,
                description: group.description,
                website: group.website,
                location: group.location,
                image: group.image,
                banner_image: group.banner_image,
            },
            privacy: Privacy {
                privacy_type: group.privacy,
                privacy_gated_type_amount: group.privacy_gated_type_amount,
            },
            owner,
            created_by,
            members: Members::new_with_owner(caller, now),
            references: References { notification_id: None, tags: group.tags },
            matrix_space_id: group.matrix_space_id,
            wallets: Vec::new(),
            events: Vec::new(),
            is_deleted: false,
            updated_on: now,
            created_on: now,
        }
    }

    /// Apply an update input: descriptive fields, visibility and tags are
    /// replaced, everything else is kept.
    pub fn update(&mut self, group: UpdateGroup, now: u64)
        ensures
            *final(self) == (GroupWithMembers {
                metadata: Metadata {
                    name: group.name,
                    description: group.description,
                    website: group.website,
                    location: group.location,
                    image: group.image,
                    banner_image: group.banner_image,
                },
                privacy: Privacy {
                    privacy_type: group.privacy,
                    privacy_gated_type_amount: group.privacy_gated_type_amount,
                },
                references: References {
                    notification_id: old(self).references.notification_id,
                    tags: group.tags,
                },
                updated_on: now,
                ..*old(self)
            }),
    {
        self.metadata = Metadata {
            name: group.name,
            description: group.description,
            website: group.website,
            location: group.location,
            image: group.image,
            banner_image: group.banner_image,
        };
        self.privacy = Privacy {
            privacy_type: group.privacy,
            privacy_gated_type_amount: group.privacy_gated_type_amount,
        };
        self.references = References {
            notification_id: self.references.notification_id,
            tags: group.tags,
        };
        self.updated_on = now;
    }

    /// Make `owner` the owner: the owner field changes, the new owner's
    /// roster entry (when there is one) gets the owner role, and every
    /// other holder of the owner role is demoted to a plain member.
    pub fn set_owner(&mut self, owner: PrincipalId, now: u64)
        requires
            old(self).wf(),
        ensures
            final(self).wf(),
            final(self).owner@ == owner@,
            *final(self) == (GroupWithMembers {
                owner: final(self).owner,
                members: final(self).members,
                ..*old(self)
            }),
            final(self).members.invites == old(self).members.invites,
            final(self).members.special_members == old(self).members.special_members,
            final(self).members.roles == old(self).members.roles,
            final(self).members.members@.len() == old(self).members.members@.len(),
            forall|i: int|
                0 <= i < old(self).members.members@.len() ==> {
                    let k = old(self).members.members@[i].0;
                    let j = old(self).members.members@[i].1;
                    let f = #[trigger] final(self).members.members@[i];
                    &&& f.0 == k
                    &&& (if k@ == owner@ {
                        f.1.roles@.len() == 1 && f.1.roles@[0]@ == owner_role() && f.1.updated_at
                            == now && f.1.created_at == now
                    } else if has_role(j.roles@, owner_role()) {
                        f.1.roles@.len() == 1 && f.1.roles@[0]@ == member_role() && f.1.updated_at
                            == now && f.1.created_at == now
                    } else {
                        f.1 == j
                    })
                },
    {
        self.owner = owner.clone();
        self.members.set_owner(owner, now);
    }

    /// Mark the group deleted.
    pub fn delete(&mut self, now: u64)
        ensures
            *final(self) == (GroupWithMembers { is_deleted: true, updated_on: now, ..*old(self) }),
    {
        self.is_deleted = true;
        self.updated_on = now;
    }

    /// The identities of every member.
    pub fn get_members(&self) -> (r: Vec<PrincipalId>)
        ensures
            r@.len() == self.members.members@.len(),
            forall|i: int| 0 <= i < r@.len() ==> r@[i]@ == self.members.members@[i].0@,
    {
        assoc_keys(&self.members.members)
    }

    /// Drop a member from the roster; an absent member is a no-op.
    pub fn remove_member(&mut self, member: PrincipalId)
        requires
            old(self).wf(),
        ensures
            final(self).wf(),
            map_of(final(self).members.members@) == map_of(old(self).members.members@).remove(
                member@,
            ),
            final(self).members == (Members {
                members: final(self).members.members,
                ..old(self).members
            }),
            *final(self) == (GroupWithMembers { members: final(self).members, ..*old(self) }),
    {
        assoc_remove(&mut self.members.members, &member);
    }

    /// Add a member with the plain member role; an existing entry is
    /// replaced by a fresh one.
    pub fn add_member(&mut self, member: PrincipalId, now: u64)
        requires
            old(self).wf(),
        ensures
            final(self).wf(),
            ({
                let m = map_of(final(self).members.members@);
                &&& m.contains_key(member@)
                &&& m == map_of(old(self).members.members@).insert(member@, m[member@])
                &&& m[member@].roles@.len() == 1 && m[member@].roles@[0]@ == member_role()
                &&& m[member@].updated_at == now && m[member@].created_at == now
            }),
            final(self).members == (Members {
                members: final(self).members.members,
                ..old(self).members
            }),
            *final(self) == (GroupWithMembers { members: final(self).members, ..*old(self) }),
    {
        let join = Join::new(now);
        assoc_insert(&mut self.members.members, member, join);
        proof {
            let m = map_of(self.members.members@);
            assert(m =~= map_of(old(self).members.members@).insert(member@, m[member@]));
        }
    }

    /// Assign an assignable role to a member; an absent member, or a name
    /// that is not assignable, changes nothing lasting but the timestamps
    /// the role assignment itself writes.
    pub fn set_member_role(&mut self, member: PrincipalId, role: String, now: u64)
        requires
            old(self).wf(),
        ensures
            final(self).wf(),
            final(self).members == (Members {
                members: final(self).members.members,
                ..old(self).members
            }),
            *final(self) == (GroupWithMembers { members: final(self).members, ..*old(self) }),
            ({
                let pre = map_of(old(self).members.members@);
                let post = map_of(final(self).members.members@);
                if pre.contains_key(member@) {
                    let assignable = role@ == admin_role() || role@ == moderator_role() || role@
                        == member_role();
                    &&& post == pre.insert(member@, post[member@])
                    &&& (if assignable {
                        post[member@].roles@.len() == 1 && post[member@].roles@[0]@ == role@
                            && post[member@].updated_at == now && post[member@].created_at
                            == pre[member@].created_at
                    } else {
                        post[member@] == pre[member@]
                    })
                } else {
                    final(self).members.members == old(self).members.members
                }
            }),
    {
        let old_join = self.remove_member_join(&member);
        match old_join {
            Some(mut join) => {
                join.set_role(role, now);
                assoc_insert(&mut self.members.members, member, join);
                proof {
                    let m = map_of(self.members.members@);
                    assert(m =~= map_of(old(self).members.members@).insert(member@, m[member@]));
                }
            },
            None => {},
        }
    }

    /// Take a member's join record out of the roster.
    fn remove_member_join(&mut self, member: &PrincipalId) -> (r: Option<Join>)
        requires
            old(self).wf(),
        ensures
            final(self).wf(),
            final(self).members == (Members {
                members: final(self).members.members,
                ..old(self).members
            }),
            *final(self) == (GroupWithMembers { members: final(self).members, ..*old(self) }),
            r is Some <==> map_of(old(self).members.members@).contains_key(member@),
            r matches Some(j) ==> j == map_of(old(self).members.members@)[member@],
            r is None ==> *final(self) == *old(self),
            map_of(final(self).members.members@) == map_of(old(self).members.members@).remove(
                member@,
            ),
    {
        let n = self.members.members.len();
        let mut i: usize = 0;
        while i < n
            invariant
                n == self.members.members@.len(),
                i <= n,
                *self == *old(self),
                old(self).wf(),
                forall|j: int| 0 <= j < i ==> self.members.members@[j].0@ != member@,
            decreases n - i,
        {
            if self.members.members[i].0.key_eq(member) {
                proof {
                    crate::entry_map::lemma_map_of_index(self.members.members@, i as int);
                    crate::entry_map::lemma_map_of_remove(self.members.members@, i as int);
                }
                let (_, j) = self.members.members.remove(i);
                return Some(j);
            }
            i += 1;
        }
        proof {
            crate::entry_map::lemma_map_of_contains(self.members.members@, member@);
            assert(map_of(self.members.members@) =~= map_of(self.members.members@).remove(
                member@,
            ));
        }
        None
    }

    /// The identities of every invited member.
    pub fn get_invites(&self) -> (r: Vec<PrincipalId>)
        ensures
            r@.len() == self.members.invites@.len(),
            forall|i: int| 0 <= i < r@.len() ==> r@[i]@ == self.members.invites@[i].0@,
    {
        assoc_keys(&self.members.invites)
    }

    /// Record an invite for an identity, replacing a pending one.
    pub fn add_invite(
        &mut self,
        member: PrincipalId,
        invite_type: InviteType,
        notification_id: Option<u64>,
        now: u64,
    )
        requires
            old(self).wf(),
        ensures
            final(self).wf(),
            map_of(final(self).members.invites@) == map_of(old(self).members.invites@).insert(
                member@,
                Invite { notification_id, invite_type, updated_at: now, created_at: now },
            ),
            final(self).members == (Members {
                invites: final(self).members.invites,
                ..old(self).members
            }),
            *final(self) == (GroupWithMembers { members: final(self).members, ..*old(self) }),
    {
        let invite = Invite { notification_id, invite_type, updated_at: now, created_at: now };
        assoc_insert(&mut self.members.invites, member, invite);
    }

    /// Drop a pending invite; an absent one is a no-op.
    pub fn remove_invite(&mut self, member: PrincipalId)
        requires
            old(self).wf(),
        ensures
            final(self).wf(),
            map_of(final(self).members.invites@) == map_of(old(self).members.invites@).remove(
                member@,
            ),
            final(self).members == (Members {
                invites: final(self).members.invites,
                ..old(self).members
            }),
            *final(self) == (GroupWithMembers { members: final(self).members, ..*old(self) }),
    {
        assoc_remove(&mut self.members.invites, &member);
    }

    /// Turn a pending invite into a membership with the plain member role;
    /// without a pending invite nothing changes.
    pub fn convert_invite_to_member(&mut self, principal: PrincipalId, now: u64)
        requires
            old(self).wf(),
        ensures
            final(self).wf(),
            final(self).members == (Members {
                members: final(self).members.members,
                invites: final(self).members.invites,
                ..old(self).members
            }),
            *final(self) == (GroupWithMembers { members: final(self).members, ..*old(self) }),
            ({
                let had = map_of(old(self).members.invites@).contains_key(principal@);
                if had {
                    let m = map_of(final(self).members.members@);
                    &&& map_of(final(self).members.invites@) == map_of(
                        old(self).members.invites@,
                    ).remove(principal@)
                    &&& m == map_of(old(self).members.members@).insert(principal@, m[principal@])
                    &&& m[principal@].roles@.len() == 1 && m[principal@].roles@[0]@
                        == member_role()
                } else {
                    &&& final(self).members.invites == old(self).members.invites
                    &&& final(self).members.members == old(self).members.members
                }
            }),
    {
        let had = assoc_remove(&mut self.members.invites, &principal);
        if had {
            let join = Join::new(now);
            assoc_insert(&mut self.members.members, principal, join);
            proof {
                let m = map_of(self.members.members@);
                assert(m =~= map_of(old(self).members.members@).insert(principal@, m[principal@]));
            }
        }
    }

    /// The linked event ids, in order.
    pub fn get_event_ids(&self) -> (r: Vec<u64>)
        ensures
            r@ == self.events@,
    {
        let n = self.events.len();
        let mut out: Vec<u64> = Vec::new();
        let mut i: usize = 0;
        while i < n
            invariant
                n == self.events@.len(),
                i <= n,
                out@ == self.events@.subrange(0, i as int),
            decreases n - i,
        {
            out.push(self.events[i]);
            proof {
                assert(out@ =~= self.events@.subrange(0, i + 1 as int));
            }
            i += 1;
        }
        proof {
            assert(self.events@.subrange(0, n as int) =~= self.events@);
        }
        out
    }

    /// Link an event.
    pub fn add_event(&mut self, event_id: u64)
        ensures
            final(self).events@ == old(self).events@.push(event_id),
            *final(self) == (GroupWithMembers { events: final(self).events, ..*old(self) }),
    {
        self.events.push(event_id);
    }

    /// Unlink an event wherever it occurs.
    pub fn remove_event(&mut self, event_id: u64)
        ensures
            final(self).events@ == without_key(old(self).events@, event_id),
            *final(self) == (GroupWithMembers { events: final(self).events, ..*old(self) }),
    {
        retain_without_key(&mut self.events, &event_id);
    }

    /// The four protected default roles followed by the group's custom
    /// roles.
    pub fn get_roles(&self) -> (r: Vec<Role>)
        ensures
            r@.len() == default_role_names().len() + self.members.roles@.len(),
            forall|i: int|
                0 <= i < default_role_names().len() ==> r@[i].name@ == default_role_names()[i]
                    && r@[i].protected,
            forall|i: int|
                0 <= i < self.members.roles@.len() ==> {
                    let c = #[trigger] r@[default_role_names().len() + i];
                    &&& c.name == self.members.roles@[i].name
                    &&& c.protected == self.members.roles@[i].protected
                    &&& c.permissions@ == self.members.roles@[i].permissions@
                },
    {
        let mut roles = default_roles();
        let n = self.members.roles.len();
        let mut i: usize = 0;
        while i < n
            invariant
                n == self.members.roles@.len(),
                i <= n,
                roles@.len() == default_role_names().len() + i,
                forall|p: int|
                    0 <= p < default_role_names().len() ==> roles@[p].name@
                        == default_role_names()[p] && roles@[p].protected,
                forall|p: int|
                    0 <= p < i ==> {
                        let c = #[trigger] roles@[default_role_names().len() + p];
                        &&& c.name == self.members.roles@[p].name
                        &&& c.protected == self.members.roles@[p].protected
                        &&& c.permissions@ == self.members.roles@[p].permissions@
                    },
            decreases n - i,
        {
            roles.push(self.members.roles[i].clone());
            i += 1;
        }
        roles
    }

    /// The permissions the named role grants: none for a protected default
    /// role, the stored ones for the first matching custom role, none for
    /// an unknown name.
    pub fn get_role_permissions(&self, role: String) -> (r: Vec<Permission>)
        ensures
            ({
                let names = self.members.roles@.map_values(|c: Role| c.name@);
                let protected_name = role@ == owner_role() || role@ == admin_role() || role@
                    == moderator_role() || role@ == member_role();
                if protected_name {
                    r@.len() == 0
                } else if names.contains(role@) {
                    exists|i: int|
                        {
                            &&& 0 <= i < self.members.roles@.len()
                            &&& #[trigger] self.members.roles@[i].name@ == role@
                            &&& (forall|j: int|
                                0 <= j < i ==> self.members.roles@[j].name@ != role@)
                            &&& r@ == self.members.roles@[i].permissions@
                        }
                } else {
                    r@.len() == 0
                }
            }),
    {
        let ghost names = self.members.roles@.map_values(|c: Role| c.name@);
        let owner = String::from_str("owner");
        let admin = String::from_str("admin");
        let moderator = String::from_str("moderator");
        let member = String::from_str("member");
        if role.eq(&owner) || role.eq(&admin) || role.eq(&moderator) || role.eq(&member) {
            return Vec::new();
        }
        proof {
            assert(owner@ == owner_role());
            assert(role@ != owner_role());
            assert(role@ != admin_role());
            assert(role@ != moderator_role());
            assert(role@ != member_role());
        }
        let n = self.members.roles.len();
        let mut i: usize = 0;
        while i < n
            invariant
                n == self.members.roles@.len(),
                i <= n,
                names == self.members.roles@.map_values(|c: Role| c.name@),
                role@ != owner_role(),
                role@ != admin_role(),
                role@ != moderator_role(),
                role@ != member_role(),
                forall|j: int| 0 <= j < i ==> self.members.roles@[j].name@ != role@,
            decreases n - i,
        {
            if self.members.roles[i].name.eq(&role) {
                let found = self.members.roles[i].clone();
                proof {
                    assert(names[i as int] == role@);
                }
                return found.permissions;
            }
            i += 1;
        }
        proof {
            assert(!names.contains(role@)) by {
                if exists|p: int| 0 <= p < names.len() && names[p] == role@ {
                    let p = choose|p: int| 0 <= p < names.len() && names[p] == role@;
                    assert(self.members.roles@[p].name@ == role@);
                }
            }
        }
        Vec::new()
    }

    /// Attach the notification that announced this group.
    pub fn set_notification_id(&mut self, notification_id: u64)
        ensures
            final(self).references == (References {
                notification_id: Some(notification_id),
                ..old(self).references
            }),
            *final(self) == (GroupWithMembers { references: final(self).references, ..*old(self) }),
    {
        self.references.notification_id = Some(notification_id);
    }

    /// Detach the notification.
    pub fn remove_notification_id(&mut self)
        ensures
            final(self).references == (References {
                notification_id: None,
                ..old(self).references
            }),
            *final(self) == (GroupWithMembers { references: final(self).references, ..*old(self) }),
    {
        self.references.notification_id = None;
    }

    /// Record a special relation for an identity.
    pub fn add_special_member(&mut self, member: PrincipalId, relation: RelationType)
        requires
            old(self).wf(),
        ensures
            final(self).wf(),
            ({
                let m = map_of(final(self).members.special_members@);
                &&& m.contains_key(member@)
                &&& m[member@]@ == relation_text(relation)
                &&& m == map_of(old(self).members.special_members@).insert(member@, m[member@])
            }),
            final(self).members == (Members {
                special_members: final(self).members.special_members,
                ..old(self).members
            }),
            *final(self) == (GroupWithMembers { members: final(self).members, ..*old(self) }),
    {
        let text = relation.to_text();
        assoc_insert(&mut self.members.special_members, member, text);
        proof {
            let m = map_of(self.members.special_members@);
            assert(m =~= map_of(old(self).members.special_members@).insert(member@, m[member@]));
        }
    }

    /// Drop an identity's special relation; an absent one is a no-op.
    pub fn remove_special_member(&mut self, member: PrincipalId)
        requires
            old(self).wf(),
        ensures
            final(self).wf(),
            map_of(final(self).members.special_members@) == map_of(
                old(self).members.special_members@,
            ).remove(member@),
            final(self).members == (Members {
                special_members: final(self).members.special_members,
                ..old(self).members
            }),
            *final(self) == (GroupWithMembers { members: final(self).members, ..*old(self) }),
    {
        assoc_remove(&mut self.members.special_members, &member);
    }

    /// Whether an identity is banned: its special relation is the blocked
    /// one.
    pub fn is_banned_member(&self, member: PrincipalId) -> (r: bool)
        requires
            self.wf(),
        ensures
            r == ({
                let m = map_of(self.members.special_members@);
                m.contains_key(member@) && m[member@]@ == relation_text(RelationType::Blocked)
            }),
    {
        match assoc_get(&self.members.special_members, &member) {
            Some(relation) => {
                let blocked = String::from_str("blocked");
                relation.eq(&blocked)
            },
            None => false,
        }
    }
}

impl Default for GroupWithMembers {
    /// An empty group owned by the anonymous identity.
    fn default() -> (r: Self)
        ensures
            r.wf(),
            r.owner@ == anonymous_bytes(),
            r.created_by@ == anonymous_bytes(),
            r.members.members@.len() == 0,
            r.members.invites@.len() == 0,
            r.events@.len() == 0,
            r.wallets@.len() == 0,
            !r.is_deleted,
            r.updated_on == 0,
            r.created_on == 0,
    {
        GroupWithMembers {
            metadata: Metadata::default(),
            privacy: Privacy::default(),
            owner: PrincipalId::anonymous(),
            created_by: PrincipalId::anonymous(),
            members: Members::new(),
            references: References::default(),
            matrix_space_id: String::new(),
            wallets: Vec::new(),
            events: Vec::new(),
            is_deleted: false,
            updated_on: 0,
            created_on: 0,
        }
    }
}

/// A group as returned to callers, with derived counts inlined.
#[derive(Clone, Debug)]
pub struct GroupResponse {
    pub id: u64,
    pub name: String,
    pub description: String,
    pub website: String,
    pub location: Location,
    pub privacy: PrivacyType,
    pub created_by: PrincipalId,
    pub owner: PrincipalId,
    pub matrix_space_id: String,
    pub image: Asset,
    pub banner_image: Asset,
    pub tags: Vec<u32>,
    pub roles: Vec<Role>,
    pub wallets: Vec<(PrincipalId, String)>,
    pub is_deleted: bool,
    pub privacy_gated_type_amount: Option<u64>,
    pub updated_on: u64,
    pub created_on: u64,
    pub boosted: Option<Boost>,
    pub events_count: u64,
    pub members_count: u64,
}

impl GroupResponse {
    /// The response for a stored group.
    pub fn new(id: u64, group: GroupWithMembers, boosted: Option<Boost>) -> (r: Self)
        ensures
            r.id == id,
            r.name == group.metadata.name,
            r.description == group.metadata.description,
            r.website == group.metadata.website,
            r.location == group.metadata.location,
            r.privacy == group.privacy.privacy_type,
            r.created_by == group.created_by,
            r.owner == group.owner,
            r.matrix_space_id == group.matrix_space_id,
            r.image == group.metadata.image,
            r.banner_image == group.metadata.banner_image,
            r.tags == group.references.tags,
            r.roles@.len() == default_role_names().len() + group.members.roles@.len(),
            forall|i: int|
                0 <= i < default_role_names().len() ==> r.roles@[i].name@
                    == default_role_names()[i] && r.roles@[i].protected,
            forall|i: int|
                0 <= i < group.members.roles@.len() ==> {
                    let c = #[trigger] r.roles@[default_role_names().len() + i];
                    &&& c.name == group.members.roles@[i].name
                    &&& c.protected == group.members.roles@[i].protected
                    &&& c.permissions@ == group.members.roles@[i].permissions@
                },
            r.wallets == group.wallets,
            r.is_deleted == group.is_deleted,
            r.privacy_gated_type_amount == group.privacy.privacy_gated_type_amount,
            r.updated_on == group.updated_on,
            r.created_on == group.created_on,
            r.boosted == boosted,
            r.events_count == group.events@.len(),
            r.members_count == group.members.members@.len(),
    {
        let roles = group.get_roles();
        let events_count = group.events.len() as u64;
        let members_count = group.members.members.len() as u64;
        GroupResponse {
            id,
            name: group.metadata.name,
            description: group.metadata.description,
            website: group.metadata.website,
            location: group.metadata.location,
            privacy: group.privacy.privacy_type,
            created_by: group.created_by,
            owner: group.owner,
            matrix_space_id: group.matrix_space_id,
            image: group.metadata.image,
            banner_image: group.metadata.banner_image,
            tags: group.references.tags,
            roles,
            wallets: group.wallets,
            is_deleted: group.is_deleted,
            privacy_gated_type_amount: group.privacy.privacy_gated_type_amount,
            updated_on: group.updated_on,
            created_on: group.created_on,
            boosted,
            events_count,
            members_count,
        }
    }

    /// The response for a lookup result: a failure passes through
    /// unchanged.
    pub fn from_result(
        group_result: Result<(u64, GroupWithMembers), crate::api_error::ApiError>,
        boosted: Option<Boost>,
    ) -> (r: Result<Self, crate::api_error::ApiError>)
        ensures
            r is Ok <==> group_result is Ok,
            (r matches Err(e) ==> group_result matches Err(e2) && e == e2),
            (r matches Ok(resp) ==> group_result matches Ok(p) && resp.id == p.0 && resp.name
                == p.1.metadata.name && resp.owner == p.1.owner && resp.boosted == boosted),
    {
        match group_result {
            Err(err) => Err(err),
            Ok((id, group)) => Ok(Self::new(id, group, boosted)),
        }
    }
}

/// Order over groups.
#[derive(Clone, Debug)]
pub enum GroupSort {
    Name(SortDirection),
    CreatedOn(SortDirection),
    UpdatedOn(SortDirection),
    MemberCount(SortDirection),
}

impl Default for GroupSort {
    /// The default order is by creation time, ascending.
    fn default() -> (r: Self)
        ensures
            r == GroupSort::CreatedOn(SortDirection::Asc),
    {
        GroupSort::CreatedOn(SortDirection::Asc)
    }
}

impl EntryOrder<u64, GroupWithMembers> for GroupSort {
    open spec fn le_spec(&self, a: &(u64, GroupWithMembers), b: &(u64, GroupWithMembers)) -> bool {
        match self {
            GroupSort::Name(SortDirection::Asc) => lex_le(
                lower_of(a.1.metadata.name@),
                lower_of(b.1.metadata.name@),
            ),
            GroupSort::Name(SortDirection::Desc) => lex_le(
                lower_of(b.1.metadata.name@),
                lower_of(a.1.metadata.name@),
            ),
            GroupSort::CreatedOn(SortDirection::Asc) => a.1.created_on <= b.1.created_on,
            GroupSort::CreatedOn(SortDirection::Desc) => b.1.created_on <= a.1.created_on,
            GroupSort::UpdatedOn(SortDirection::Asc) => a.1.updated_on <= b.1.updated_on,
            GroupSort::UpdatedOn(SortDirection::Desc) => b.1.updated_on <= a.1.updated_on,
            GroupSort::MemberCount(SortDirection::Asc) => a.1.members.members@.len()
                <= b.1.members.members@.len(),
            GroupSort::MemberCount(SortDirection::Desc) => b.1.members.members@.len()
                <= a.1.members.members@.len(),
        }
    }

    proof fn le_total(&self, a: &(u64, GroupWithMembers), b: &(u64, GroupWithMembers)) {
        match self {
            GroupSort::Name(_) => {
                lemma_lex_le_total(lower_of(a.1.metadata.name@), lower_of(b.1.metadata.name@));
            },
            _ => {},
        }
    }

    proof fn le_trans(
        &self,
        a: &(u64, GroupWithMembers),
        b: &(u64, GroupWithMembers),
        c: &(u64, GroupWithMembers),
    ) {
        match self {
            GroupSort::Name(SortDirection::Asc) => {
                lemma_lex_le_trans(
                    lower_of(a.1.metadata.name@),
                    lower_of(b.1.metadata.name@),
                    lower_of(c.1.metadata.name@),
                );
            },
            GroupSort::Name(SortDirection::Desc) => {
                lemma_lex_le_trans(
                    lower_of(c.1.metadata.name@),
                    lower_of(b.1.metadata.name@),
                    lower_of(a.1.metadata.name@),
                );
            },
            _ => {},
        }
    }

    fn le(&self, a: &(u64, GroupWithMembers), b: &(u64, GroupWithMembers)) -> (r: bool) {
        match self {
            GroupSort::Name(SortDirection::Asc) => le_ci(
                a.1.metadata.name.as_str(),
                b.1.metadata.name.as_str(),
            ),
            GroupSort::Name(SortDirection::Desc) => le_ci(
                b.1.metadata.name.as_str(),
                a.1.metadata.name.as_str(),
            ),
            GroupSort::CreatedOn(SortDirection::Asc) => a.1.created_on <= b.1.created_on,
            GroupSort::CreatedOn(SortDirection::Desc) => b.1.created_on <= a.1.created_on,
            GroupSort::UpdatedOn(SortDirection::Asc) => a.1.updated_on <= b.1.updated_on,
            GroupSort::UpdatedOn(SortDirection::Desc) => b.1.updated_on <= a.1.updated_on,
            GroupSort::MemberCount(SortDirection::Asc) => a.1.members.members.len()
                <= b.1.members.members.len(),
            GroupSort::MemberCount(SortDirection::Desc) => b.1.members.members.len()
                <= a.1.members.members.len(),
        }
    }
}

impl Sorter<u64, GroupWithMembers> for GroupSort {
    fn sort(&self, entries: Vec<(u64, GroupWithMembers)>) -> (r: Vec<(u64, GroupWithMembers)>) {
        sort_entries(self, entries)
    }
}

/// Aggregate counts about groups for one caller.
#[derive(Clone, Copy, Debug, PartialEq, Eq, Structural)]
pub struct GroupsCount {
    pub total: u64,
    pub joined: u64,
    pub invited: u64,
    pub starred: u64,
    pub new: u64,
}

/// Predicates over groups. `Any` passes everything; a time-range filter
/// whose end is zero only bounds from below.
#[derive(Clone, Debug)]
pub enum GroupFilter {
    Any,
    Name(String),
    Owner(PrincipalId),
    Ids(Vec<u64>),
    Tag(u32),
    UpdatedOn(DateRange),
    CreatedOn(DateRange),
}

impl Default for GroupFilter {
    /// The default filter passes everything.
    fn default() -> (r: Self)
        ensures
            r is Any,
    {
        GroupFilter::Any
    }
}

impl Filter<u64, GroupWithMembers> for GroupFilter {
    open spec fn matches_spec(&self, id: &u64, group: &GroupWithMembers) -> bool {
        match self {
            GroupFilter::Any => true,
            GroupFilter::Name(name) => contains_seq(
                lower_of(group.metadata.name@),
                lower_of(name@),
            ),
            GroupFilter::Owner(owner) => group.owner@ == owner@,
            GroupFilter::Ids(ids) => has_key_view(ids@, id@),
            GroupFilter::Tag(tag) => has_key_view(group.references.tags@, tag@),
            GroupFilter::UpdatedOn(range) => if range.end > 0 {
                range.within_spec(group.updated_on)
            } else {
                range.after_start_spec(group.updated_on)
            },
            GroupFilter::CreatedOn(range) => if range.end > 0 {
                range.within_spec(group.created_on)
            } else {
                range.after_start_spec(group.created_on)
            },
        }
    }

    fn matches(&self, id: &u64, group: &GroupWithMembers) -> (r: bool) {
        match self {
            GroupFilter::Any => true,
            GroupFilter::Name(name) => contains_ci(group.metadata.name.as_str(), name.as_str()),
            GroupFilter::Owner(owner) => group.owner.eq_principal(owner),
            GroupFilter::Ids(ids) => key_in_vec(ids, id),
            GroupFilter::Tag(tag) => key_in_vec(&group.references.tags, tag),
            GroupFilter::UpdatedOn(range) => if range.end_date() > 0 {
                range.is_within(group.updated_on)
            } else {
                range.is_after_start_date(group.updated_on)
            },
            GroupFilter::CreatedOn(range) => if range.end_date() > 0 {
                range.is_within(group.created_on)
            } else {
                range.is_after_start_date(group.created_on)
            },
        }
    }
}

} // verus!
