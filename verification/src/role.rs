//! Roles known to the authorization layer.

use vstd::prelude::*;

verus! {

/// The two roles a deployment distinguishes.
#[derive(Clone, Copy, Debug, PartialEq, Eq, Structural)]
pub enum RoleType {
    Admin,
    User,
}

impl RoleType {
    /// The wire name of this role.
    pub open spec fn spec_value(&self) -> Seq<char> {
        match self {
            RoleType::Admin => "admin"@,
            RoleType::User => "user"@,
        }
    }

    /// Returns the wire name of this role.
    pub fn get_value(&self) -> (r: &str)
        ensures
            r@ == self.spec_value(),
    {
        match self {
            RoleType::Admin => "admin",
            RoleType::User => "user",
        }
    }
}

/// What the store knows of one role: its identity, its name, and the
/// flat permission strings granted to it.
pub struct Role {
    pub id: u128,
    pub name: RoleType,
    pub permissions: Vec<String>,
}

/// The mathematical value of a `Role`.
pub ghost struct RoleView {
    pub id: u128,
    pub name: RoleType,
    pub permissions: Seq<Seq<char>>,
}

impl View for Role {
    type V = RoleView;

    open spec fn view(&self) -> RoleView {
        RoleView {
            id: self.id,
            name: self.name,
            permissions: self.permissions@.map_values(|p: String| p@),
        }
    }
}

} // verus!
