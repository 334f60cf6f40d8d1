//! Group and event roles: the protected default roles every group starts
//! with, and the permissions attached to a role.

use vstd::prelude::*;

verus! {

/// The protected owner role name.
pub open spec fn owner_role() -> Seq<char> {
    "owner"@
}

/// The protected admin role name.
pub open spec fn admin_role() -> Seq<char> {
    "admin"@
}

/// The protected moderator role name.
pub open spec fn moderator_role() -> Seq<char> {
    "moderator"@
}

/// The protected plain member role name.
pub open spec fn member_role() -> Seq<char> {
    "member"@
}

/// One permission a role grants.
#[derive(Debug)]
pub struct Permission {
    pub name: String,
    pub protected: bool,
}

impl Clone for Permission {
    /// A clone is equal to the original.
    fn clone(&self) -> (r: Self)
        ensures
            r == *self,
    {
        Permission { name: self.name.clone(), protected: self.protected }
    }
}

/// A role a member can hold, with the permissions it grants.
#[derive(Debug)]
pub struct Role {
    pub name: String,
    pub protected: bool,
    pub permissions: Vec<Permission>,
}

impl Clone for Role {
    /// A clone keeps the name, the protection flag and the permissions.
    fn clone(&self) -> (r: Self)
        ensures
            r.name == self.name,
            r.protected == self.protected,
            r.permissions@ == self.permissions@,
    {
        let n = self.permissions.len();
        let mut permissions: Vec<Permission> = Vec::new();
        let mut i: usize = 0;
        while i < n
            invariant
                n == self.permissions@.len(),
                i <= n,
                permissions@ == self.permissions@.subrange(0, i as int),
            decreases n - i,
        {
            permissions.push(self.permissions[i].clone());
            proof {
                assert(permissions@ =~= self.permissions@.subrange(0, i + 1 as int));
            }
            i += 1;
        }
        proof {
            assert(self.permissions@.subrange(0, n as int) =~= self.permissions@);
        }
        Role { name: self.name.clone(), protected: self.protected, permissions }
    }
}

impl Role {
    /// A protected role with the given name and no extra permissions.
    pub fn protected(name: &str) -> (r: Role)
        ensures
            r.name@ == name@,
            r.protected,
            r.permissions@.len() == 0,
    {
        Role { name: String::from_str(name), protected: true, permissions: Vec::new() }
    }
}

/// The names of the four protected default roles, in order.
pub open spec fn default_role_names() -> Seq<Seq<char>> {
    seq![owner_role(), admin_role(), moderator_role(), member_role()]
}

/// The protected default roles every group and event starts with.
pub fn default_roles() -> (r: Vec<Role>)
    ensures
        r@.len() == default_role_names().len(),
        forall|i: int|
            0 <= i < r@.len() ==> r@[i].name@ == default_role_names()[i] && r@[i].protected,
{
    let mut out: Vec<Role> = Vec::new();
    out.push(Role::protected("owner"));
    out.push(Role::protected("admin"));
    out.push(Role::protected("moderator"));
    out.push(Role::protected("member"));
    out
}

} // verus!
