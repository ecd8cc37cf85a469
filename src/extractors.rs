use vstd::prelude::*;

use crate::identity::{AuthUser, UserContext};
use crate::repo::ProductRepository;

verus! {

/// The status of a wiring fault: `500 Internal Server Error`.
pub const INTERNAL_SERVER_ERROR: u16 = 500;

/// A handler asked for something that no earlier stage put into the request's state.
#[derive(Clone, Copy, Debug, PartialEq, Eq, Structural)]
pub enum ExtractorError {
    /// No identity was attached: the route runs without the authentication stage.
    ContextMissing,
    /// No connection pool was registered.
    PoolMissing,
}

impl ExtractorError {
    /// Wiring faults are server faults, never `401` or `403`.
    pub fn status_code(&self) -> (r: u16)
        ensures
            r == INTERNAL_SERVER_ERROR,
    {
        INTERNAL_SERVER_ERROR
    }

    pub fn message(&self) -> (r: &'static str)
        ensures
            *self == ExtractorError::ContextMissing ==> r@ == "User context missing"@,
            *self == ExtractorError::PoolMissing ==> r@ == "missing db pool"@,
    {
        match self {
            ExtractorError::ContextMissing => "User context missing",
            ExtractorError::PoolMissing => "missing db pool",
        }
    }
}

/// Reads the identity that the authentication stage attached to the request.
pub fn extract_identity(slot: Option<&UserContext>) -> (r: Result<AuthUser, ExtractorError>)
    ensures
        match slot {
            Some(u) => r == Ok::<AuthUser, ExtractorError>(AuthUser(*u)),
            None => r == Err::<AuthUser, ExtractorError>(ExtractorError::ContextMissing),
        },
{
    match slot {
        Some(u) => Ok(AuthUser(*u)),
        None => Err(ExtractorError::ContextMissing),
    }
}

/// The repository handle a handler receives.
pub struct RepoExtractor<P>(pub ProductRepository<P>);

/// Wraps the registered pool handle in a fresh repository for this request.
pub fn extract_repository<P>(slot: Option<P>) -> (r: Result<RepoExtractor<P>, ExtractorError>)
    ensures
        match slot {
            Some(p) => r is Ok && r->Ok_0.0.pool == p,
            None => r is Err && r->Err_0 == ExtractorError::PoolMissing,
        },
{
    match slot {
        Some(p) => Ok(RepoExtractor(ProductRepository::new(p))),
        None => Err(ExtractorError::PoolMissing),
    }
}

} // verus!
