use vstd::prelude::*;

use crate::text::five_chars_equal;

verus! {

/// The closed set of capability tiers a caller can hold.
#[derive(Clone, Copy, Debug, PartialEq, Eq, Structural)]
pub enum Roles {
    Admin,
    Staff,
}

/// The wire tag of the administrator role.
pub open spec fn admin_tag() -> Seq<char> {
    seq!['a', 'd', 'm', 'i', 'n']
}

/// The wire tag of the staff role.
pub open spec fn staff_tag() -> Seq<char> {
    seq!['s', 't', 'a', 'f', 'f']
}

/// The lowercase wire tag of a role.
pub open spec fn tag_of(role: Roles) -> Seq<char> {
    match role {
        Roles::Admin => admin_tag(),
        Roles::Staff => staff_tag(),
    }
}

/// The role named by a lowercase wire tag, if the tag is one of the closed set.
pub open spec fn role_of_tag(tag: Seq<char>) -> Option<Roles> {
    if tag == admin_tag() {
        Some(Roles::Admin)
    } else if tag == staff_tag() {
        Some(Roles::Staff)
    } else {
        None
    }
}

impl Roles {
    /// Parses a role tag; only the exact lowercase tags `admin` and `staff` are accepted.
    pub fn from_tag(tag: &str) -> (r: Option<Roles>)
        ensures
            r == role_of_tag(tag@),
    {
        if five_chars_equal(tag, 'a', 'd', 'm', 'i', 'n') {
            Some(Roles::Admin)
        } else if five_chars_equal(tag, 's', 't', 'a', 'f', 'f') {
            Some(Roles::Staff)
        } else {
            None
        }
    }
}

} // verus!
