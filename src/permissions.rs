use vstd::prelude::*;

use crate::identity::UserContext;
use crate::roles::Roles;

verus! {

/// Whether a caller may create products: only administrators may.
pub open spec fn may_create_product(user: UserContext) -> bool {
    user.role == Roles::Admin
}

/// The outcome of a permission check: allowed, or denied with a reason.
#[derive(Clone, Copy, Debug)]
pub enum PermissionDecision {
    Allowed,
    Denied { reason: &'static str },
}

/// Permission predicates for product actions.
pub struct ProductPermission {}

impl ProductPermission {
    /// Whether the caller may create a product.
    pub fn can_create_product(user: &UserContext) -> (r: bool)
        ensures
            r == may_create_product(*user),
    {
        match user.role {
            Roles::Admin => true,
            Roles::Staff => false,
        }
    }

    /// The create-product check as a decision that carries the reason for a denial.
    pub fn decide_create_product(user: &UserContext) -> (r: PermissionDecision)
        ensures
            r is Allowed == may_create_product(*user),
            r is Denied ==> r->reason@ == "You are not allowed to create products"@,
    {
        if Self::can_create_product(user) {
            PermissionDecision::Allowed
        } else {
            PermissionDecision::Denied { reason: "You are not allowed to create products" }
        }
    }
}

} // verus!
