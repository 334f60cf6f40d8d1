//! Membership records: the roles an identity holds inside a group or
//! event, and a pending invite.

use vstd::prelude::*;

use crate::assoc::{has_key_view, key_in_vec};
use crate::models::role::{admin_role, member_role, moderator_role, owner_role};
use crate::models::support::InviteType;

verus! {

/// A membership: the roles held, with creation and update times.
#[derive(Clone, Debug)]
pub struct Join {
    pub roles: Vec<String>,
    pub updated_at: u64,
    pub created_at: u64,
}

/// Whether a role list carries the given role name.
pub open spec fn has_role(roles: Seq<String>, role: Seq<char>) -> bool {
    has_key_view(roles, role)
}

impl Join {
    /// A fresh membership holding the plain member role.
    pub fn new(now: u64) -> (r: Join)
        ensures
            r.roles@.len() == 1 && r.roles@[0]@ == member_role(),
            r.updated_at == now,
            r.created_at == now,
    {
        let mut roles: Vec<String> = Vec::new();
        roles.push(String::from_str("member"));
        Join { roles, updated_at: now, created_at: now }
    }

    /// Make this membership hold exactly the owner role.
    pub fn set_owner_role(&mut self, now: u64)
        ensures
            final(self).roles@.len() == 1 && final(self).roles@[0]@ == owner_role(),
            final(self).updated_at == now,
            final(self).created_at == now,
    {
        let mut roles: Vec<String> = Vec::new();
        roles.push(String::from_str("owner"));
        self.roles = roles;
        self.updated_at = now;
        self.created_at = now;
    }

    /// Whether the owner role is held.
    pub fn has_owner_role(&self) -> (r: bool)
        ensures
            r == has_role(self.roles@, owner_role()),
    {
        let role = String::from_str("owner");
        key_in_vec(&self.roles, &role)
    }

    /// Make this membership hold exactly the admin role.
    pub fn set_admin_role(&mut self, now: u64)
        ensures
            final(self).roles@.len() == 1 && final(self).roles@[0]@ == admin_role(),
            final(self).updated_at == now,
            final(self).created_at == now,
    {
        let mut roles: Vec<String> = Vec::new();
        roles.push(String::from_str("admin"));
        self.roles = roles;
        self.updated_at = now;
        self.created_at = now;
    }

    /// Whether the admin role is held.
    pub fn has_admin_role(&self) -> (r: bool)
        ensures
            r == has_role(self.roles@, admin_role()),
    {
        let role = String::from_str("admin");
        key_in_vec(&self.roles, &role)
    }

    /// Make this membership hold exactly the moderator role.
    pub fn set_moderator_role(&mut self, now: u64)
        ensures
            final(self).roles@.len() == 1 && final(self).roles@[0]@ == moderator_role(),
            final(self).updated_at == now,
            final(self).created_at == now,
    {
        let mut roles: Vec<String> = Vec::new();
        roles.push(String::from_str("moderator"));
        self.roles = roles;
        self.updated_at = now;
        self.created_at = now;
    }

    /// Whether the moderator role is held.
    pub fn has_moderator_role(&self) -> (r: bool)
        ensures
            r == has_role(self.roles@, moderator_role()),
    {
        let role = String::from_str("moderator");
        key_in_vec(&self.roles, &role)
    }

    /// Make this membership hold exactly the plain member role.
    pub fn set_member_role(&mut self, now: u64)
        ensures
            final(self).roles@.len() == 1 && final(self).roles@[0]@ == member_role(),
            final(self).updated_at == now,
            final(self).created_at == now,
    {
        let mut roles: Vec<String> = Vec::new();
        roles.push(String::from_str("member"));
        self.roles = roles;
        self.updated_at = now;
        self.created_at = now;
    }

    /// Whether the plain member role is held.
    pub fn has_member_role(&self) -> (r: bool)
        ensures
            r == has_role(self.roles@, member_role()),
    {
        let role = String::from_str("member");
        key_in_vec(&self.roles, &role)
    }

    /// Assign one of the assignable roles (admin, moderator or member);
    /// any other name leaves the membership unchanged. The owner role is
    /// never assigned this way.
    pub fn set_role(&mut self, role: String, now: u64)
        ensures
            ({
                let assignable = role@ == admin_role() || role@ == moderator_role() || role@
                    == member_role();
                if assignable {
                    &&& final(self).roles@.len() == 1 && final(self).roles@[0]@ == role@
                    &&& final(self).updated_at == now
                    &&& final(self).created_at == old(self).created_at
                } else {
                    *final(self) == *old(self)
                }
            }),
    {
        let admin = String::from_str("admin");
        let moderator = String::from_str("moderator");
        let member = String::from_str("member");
        if role.eq(&admin) || role.eq(&moderator) || role.eq(&member) {
            let mut roles: Vec<String> = Vec::new();
            roles.push(role);
            self.roles = roles;
            self.updated_at = now;
        }
    }
}

/// A pending invite into a group or event.
#[derive(Clone, Debug)]
pub struct Invite {
    pub notification_id: Option<u64>,
    pub invite_type: InviteType,
    pub updated_at: u64,
    pub created_at: u64,
}

impl Invite {
    /// Attach the notification that announced this invite.
    pub fn set_notification_id(&mut self, notification_id: u64)
        ensures
            *final(self) == (Invite { notification_id: Some(notification_id), ..*old(self) }),
    {
        self.notification_id = Some(notification_id);
    }

    /// Detach the notification.
    pub fn remove_notification_id(&mut self)
        ensures
            *final(self) == (Invite { notification_id: None, ..*old(self) }),
    {
        self.notification_id = None;
    }
}

} // verus!
