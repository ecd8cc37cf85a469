//! Request authentication and authorization for the inventory service:
//! bearer-header parsing, token decoding into a claim set, the per-request
//! identity, the extractors that hand it to handlers, and the permission
//! predicates that guard mutating actions.
use vstd::prelude::*;

pub mod roles;
mod text;
pub mod decoder;
pub mod extractors;
pub mod header;
pub mod identity;
pub mod laws;
pub mod middleware;
pub mod permissions;
pub mod product;
pub mod repo;

verus! {

} // verus!
