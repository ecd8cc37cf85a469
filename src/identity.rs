use vstd::prelude::*;

use crate::roles::Roles;

verus! {

/// A verified claim set: who the token speaks for, in which inventory, with which role.
/// Identifiers are the 128-bit values of their UUIDs.
#[derive(Clone, Copy, Debug, PartialEq, Eq, Structural)]
pub struct AuthClaims {
    pub user_id: u128,
    pub inventory_id: u128,
    pub role: Roles,
    /// Issued-at time; advisory only, never used for expiry.
    pub iat: Option<u64>,
}

/// The identity of the caller of one request, built from a verified claim set.
#[derive(Clone, Copy, Debug, PartialEq, Eq, Structural)]
pub struct UserContext {
    pub user_id: u128,
    pub inventory_id: u128,
    pub role: Roles,
}

impl UserContext {
    /// The identity that a claim set speaks for.
    pub open spec fn of_claims(c: AuthClaims) -> UserContext {
        UserContext { user_id: c.user_id, inventory_id: c.inventory_id, role: c.role }
    }

    /// Builds the identity from a claim set, keeping its subject, tenant and role.
    pub fn from_claims(c: &AuthClaims) -> (r: UserContext)
        ensures
            r == Self::of_claims(*c),
            r.user_id == c.user_id,
            r.inventory_id == c.inventory_id,
            r.role == c.role,
    {
        UserContext { user_id: c.user_id, inventory_id: c.inventory_id, role: c.role }
    }
}

/// The identity as a handler receives it.
#[derive(Clone, Copy, Debug, PartialEq, Eq, Structural)]
pub struct AuthUser(pub UserContext);

impl AuthUser {
    pub fn is_admin(&self) -> (r: bool)
        ensures
            r == (self.0.role == Roles::Admin),
    {
        match self.0.role {
            Roles::Admin => true,
            Roles::Staff => false,
        }
    }

    pub fn is_staff(&self) -> (r: bool)
        ensures
            r == (self.0.role == Roles::Staff),
    {
        match self.0.role {
            Roles::Admin => false,
            Roles::Staff => true,
        }
    }
}

} // verus!
