//! Groups in their flat layout, with every field inline.

use vstd::prelude::*;

use crate::assoc::{assoc_get, assoc_insert, assoc_remove};
use crate::entry_map::{map_of, unique_keys};
use crate::models::group_with_members::{PostGroup, UpdateGroup};
use crate::models::responses::{InviteMemberResponse, JoinedMemberResponse};
use crate::models::role::{default_role_names, default_roles, Permission, Role};
use crate::models::support::{relation_text, Asset, Location, PrivacyType, RelationType};
use crate::principal::{anonymous_bytes, PrincipalId};

verus! {

/// A group with every field inline.
#[derive(Clone, Debug)]
pub struct Group {
    pub name: String,
    pub description: String,
    pub website: String,
    pub location: Location,
    pub privacy: PrivacyType,
    pub owner: PrincipalId,
    pub created_by: PrincipalId,
    pub matrix_space_id: String,
    pub image: Asset,
    pub banner_image: Asset,
    pub tags: Vec<u32>,
    pub privacy_gated_type_amount: Option<u64>,
    pub roles: Vec<Role>,
    pub is_deleted: bool,
    pub notification_id: Option<u64>,
    pub special_members: Vec<(PrincipalId, String)>,
    pub wallets: Vec<(PrincipalId, String)>,
    pub updated_on: u64,
    pub created_on: u64,
}

impl Group {
    /// Each keyed list maps an identity at most once.
    pub open spec fn wf(&self) -> bool {
        &&& unique_keys(self.special_members@)
        &&& unique_keys(self.wallets@)
    }

    /// The group a creation input describes, owned and created by the
    /// caller, stamped with the current time.
    pub fn from(group: PostGroup, caller: PrincipalId, now: u64) -> (r: Self)
        ensures
            r.wf(),
            r.name == group.name,
            r.description == group.description,
            r.website == group.website,
            r.location == group.location,
            r.privacy == group.privacy,
            r.owner@ == caller@,
            r.created_by@ == caller@,
            r.matrix_space_id == group.matrix_space_id,
            r.image == group.image,
            r.banner_image == group.banner_image,
            r.tags == group.tags,
            r.privacy_gated_type_amount == group.privacy_gated_type_amount,
            r.roles@.len() == 0,
            !r.is_deleted,
            r.notification_id is None,
            r.special_members@.len() == 0,
            r.wallets@.len() == 0,
            r.updated_on == now,
            r.created_on == now,
    {
        let created_by = caller.clone();
        Group {
            name: group.name,
            description: group.description,
            website: group.website,
            location: group.location,
            privacy: group.privacy,
            owner: caller,
            created_by,
            matrix_space_id: group.matrix_space_id,
            image: group.image,
            banner_image: group.banner_image,
            tags: group.tags,
            privacy_gated_type_amount: group.privacy_gated_type_amount,
            roles: Vec::new(),
            is_deleted: false,
            notification_id: None,
            special_members: Vec::new(),
            wallets: Vec::new(),
            updated_on: now,
            created_on: now,
        }
    }

    /// Apply an update input: descriptive fields, visibility and tags are
    /// replaced, everything else is kept.
    pub fn update(&mut self, group: UpdateGroup, now: u64)
        ensures
            *final(self) == (Group {
                name: group.name,
                description: group.description,
                website: group.website,
                location: group.location,
                privacy: group.privacy,
                image: group.image,
                banner_image: group.banner_image,
                tags: group.tags,
                privacy_gated_type_amount: group.privacy_gated_type_amount,
                updated_on: now,
                ..*old(self)
            }),
    {
        self.name = group.name;
        self.description = group.description;
        self.website = group.website;
        self.location = group.location;
        self.privacy = group.privacy;
        self.image = group.image;
        self.banner_image = group.banner_image;
        self.tags = group.tags;
        self.privacy_gated_type_amount = group.privacy_gated_type_amount;
        self.updated_on = now;
    }

    /// Make `owner` the owner.
    pub fn set_owner(&mut self, owner: PrincipalId, now: u64)
        ensures
            *final(self) == (Group { owner, updated_on: now, ..*old(self) }),
    {
        self.owner = owner;
        self.updated_on = now;
    }

    /// Mark the group deleted.
    pub fn delete(&mut self, now: u64)
        ensures
            *final(self) == (Group { is_deleted: true, updated_on: now, ..*old(self) }),
    {
        self.is_deleted = true;
        self.updated_on = now;
    }

    /// The group's custom roles followed by the four protected default
    /// roles.
    pub fn get_roles(&self) -> (r: Vec<Role>)
        ensures
            r@.len() == self.roles@.len() + default_role_names().len(),
            forall|i: int|
                0 <= i < self.roles@.len() ==> {
                    let c = #[trigger] r@[i];
                    &&& c.name == self.roles@[i].name
                    &&& c.protected == self.roles@[i].protected
                    &&& c.permissions@ == self.roles@[i].permissions@
                },
            forall|i: int|
                0 <= i < default_role_names().len() ==> r@[self.roles@.len() + i].name@
                    == default_role_names()[i] && r@[self.roles@.len() + i].protected,
    {
        let n = self.roles.len();
        let mut out: Vec<Role> = Vec::new();
        let mut i: usize = 0;
        while i < n
            invariant
                n == self.roles@.len(),
                i <= n,
                out@.len() == i,
                forall|p: int|
                    0 <= p < i ==> {
                        let c = #[trigger] out@[p];
                        &&& c.name == self.roles@[p].name
                        &&& c.protected == self.roles@[p].protected
                        &&& c.permissions@ == self.roles@[p].permissions@
                    },
            decreases n - i,
        {
            out.push(self.roles[i].clone());
            i += 1;
        }
        let mut defaults = default_roles();
        out.append(&mut defaults);
        out
    }

    /// The permissions the named role grants: the stored ones for the
    /// first matching custom role, none for a protected default role or an
    /// unknown name.
    pub fn get_role_permissions(&self, role: String) -> (r: Vec<Permission>)
        ensures
            ({
                let names = self.roles@.map_values(|c: Role| c.name@);
                if names.contains(role@) {
                    exists|i: int|
                        {
                            &&& 0 <= i < self.roles@.len()
                            &&& #[trigger] self.roles@[i].name@ == role@
                            &&& (forall|j: int| 0 <= j < i ==> self.roles@[j].name@ != role@)
                            &&& r@ == self.roles@[i].permissions@
                        }
                } else {
                    r@.len() == 0
                }
            }),
    {
        let ghost names = self.roles@.map_values(|c: Role| c.name@);
        let n = self.roles.len();
        let mut i: usize = 0;
        while i < n
            invariant
                n == self.roles@.len(),
                i <= n,
                names == self.roles@.map_values(|c: Role| c.name@),
                forall|j: int| 0 <= j < i ==> self.roles@[j].name@ != role@,
            decreases n - i,
        {
            if self.roles[i].name.eq(&role) {
                let found = self.roles[i].clone();
                proof {
                    assert(names[i as int] == role@);
                }
                return found.permissions;
            }
            i += 1;
        }
        proof {
            assert(!names.contains(role@)) by {
                if exists|p: int| 0 <= p < names.len() && names[p] == role@ {
                    let p = choose|p: int| 0 <= p < names.len() && names[p] == role@;
                    assert(self.roles@[p].name@ == role@);
                }
            }
        }
        Vec::new()
    }

    /// Attach the notification that announced this group.
    pub fn set_notification_id(&mut self, notification_id: u64)
        ensures
            *final(self) == (Group { notification_id: Some(notification_id), ..*old(self) }),
    {
        self.notification_id = Some(notification_id);
    }

    /// Detach the notification.
    pub fn remove_notification_id(&mut self)
        ensures
            *final(self) == (Group { notification_id: None, ..*old(self) }),
    {
        self.notification_id = None;
    }

    /// Record a special relation for an identity.
    pub fn add_special_member(&mut self, member: PrincipalId, relation: RelationType)
        requires
            old(self).wf(),
        ensures
            final(self).wf(),
            ({
                let m = map_of(final(self).special_members@);
                &&& m.contains_key(member@)
                &&& m[member@]@ == relation_text(relation)
                &&& m == map_of(old(self).special_members@).insert(member@, m[member@])
            }),
            *final(self) == (Group { special_members: final(self).special_members, ..*old(self) }),
    {
        let text = relation.to_text();
        assoc_insert(&mut self.special_members, member, text);
        proof {
            let m = map_of(self.special_members@);
            assert(m =~= map_of(old(self).special_members@).insert(member@, m[member@]));
        }
    }

    /// Drop an identity's special relation; an absent one is a no-op.
    pub fn remove_special_member_from_group(&mut self, member: PrincipalId)
        requires
            old(self).wf(),
        ensures
            final(self).wf(),
            map_of(final(self).special_members@) == map_of(old(self).special_members@).remove(
                member@,
            ),
            *final(self) == (Group { special_members: final(self).special_members, ..*old(self) }),
    {
        assoc_remove(&mut self.special_members, &member);
    }

    /// Whether an identity is banned: its special relation is the blocked
    /// one.
    pub fn is_banned_member(&self, member: PrincipalId) -> (r: bool)
        requires
            self.wf(),
        ensures
            r == ({
                let m = map_of(self.special_members@);
                m.contains_key(member@) && m[member@]@ == relation_text(RelationType::Blocked)
            }),
    {
        match assoc_get(&self.special_members, &member) {
            Some(relation) => {
                let blocked = String::from_str("blocked");
                relation.eq(&blocked)
            },
            None => false,
        }
    }
}

impl Default for Group {
    /// An empty group owned by the anonymous identity.
    fn default() -> (r: Self)
        ensures
            r.wf(),
            r.owner@ == anonymous_bytes(),
            r.created_by@ == anonymous_bytes(),
            r.name@.len() == 0,
            r.tags@.len() == 0,
            r.roles@.len() == 0,
            !r.is_deleted,
            r.notification_id is None,
            r.special_members@.len() == 0,
            r.wallets@.len() == 0,
            r.updated_on == 0,
            r.created_on == 0,
    {
        Group {
            name: String::new(),
            description: String::new(),
            website: String::new(),
            location: Location::Unset,
            privacy: PrivacyType::Public,
            owner: PrincipalId::anonymous(),
            created_by: PrincipalId::anonymous(),
            matrix_space_id: String::new(),
            image: Asset::Unset,
            banner_image: Asset::Unset,
            tags: Vec::new(),
            privacy_gated_type_amount: None,
            roles: Vec::new(),
            is_deleted: false,
            notification_id: None,
            special_members: Vec::new(),
            wallets: Vec::new(),
            updated_on: 0,
            created_on: 0,
        }
    }
}

/// What one caller sees about their own standing in a group.
#[derive(Clone, Debug)]
pub struct GroupCallerData {
    pub joined: Option<JoinedMemberResponse>,
    pub invite: Option<InviteMemberResponse>,
    pub is_starred: bool,
    pub is_pinned: bool,
}

impl GroupCallerData {
    /// A caller's standing.
    pub fn new(
        joined: Option<JoinedMemberResponse>,
        invite: Option<InviteMemberResponse>,
        is_starred: bool,
        is_pinned: bool,
    ) -> (r: Self)
        ensures
            r == (GroupCallerData { joined, invite, is_starred, is_pinned }),
    {
        GroupCallerData { joined, invite, is_starred, is_pinned }
    }
}

} // verus!
