use vstd::prelude::*;

use crate::decoder::{decode, decoded, opt_view, AuthConfig, DecodeError};
use crate::header::{bearer_credential, header_verdict, HeaderError, HeaderVerdict};
use crate::identity::{AuthClaims, UserContext};

verus! {

/// The status of every authentication failure: `401 Unauthorized`.
pub const UNAUTHORIZED: u16 = 401;

/// Why a request is not authenticated. All kinds answer `401` with a generic message.
#[derive(Clone, Copy, Debug, PartialEq, Eq, Structural)]
pub enum AuthError {
    MissingHeader,
    BadScheme,
    NoToken,
    InvalidToken,
}

impl AuthError {
    pub fn status_code(&self) -> (r: u16)
        ensures
            r == UNAUTHORIZED,
    {
        UNAUTHORIZED
    }

    /// The response text; a decode failure never says which check failed.
    pub fn message(&self) -> (r: &'static str)
        ensures
            *self == AuthError::MissingHeader ==> r@ == "missing Authorization header"@,
            *self == AuthError::BadScheme ==> r@ == "No Bearer Scheme"@,
            *self == AuthError::NoToken ==> r@ == "No Bearer token found"@,
            *self == AuthError::InvalidToken ==> r@ == "invalid token"@,
    {
        match self {
            AuthError::MissingHeader => "missing Authorization header",
            AuthError::BadScheme => "No Bearer Scheme",
            AuthError::NoToken => "No Bearer token found",
            AuthError::InvalidToken => "invalid token",
        }
    }
}

/// The identity that a decode outcome yields, or `InvalidToken` for every decode failure.
pub open spec fn context_of_decoded(d: Result<AuthClaims, DecodeError>) -> Result<
    UserContext,
    AuthError,
> {
    match d {
        Ok(c) => Ok(UserContext::of_claims(c)),
        Err(_) => Err(AuthError::InvalidToken),
    }
}

/// Turns a decode outcome into the request's identity, hiding which decode check failed.
pub fn context_from_decoded(d: Result<AuthClaims, DecodeError>) -> (r: Result<
    UserContext,
    AuthError,
>)
    ensures
        r == context_of_decoded(d),
{
    match d {
        Ok(c) => Ok(UserContext::from_claims(&c)),
        Err(_) => Err(AuthError::InvalidToken),
    }
}

/// What the authentication stage yields for an `Authorization` header value under a secret.
pub open spec fn auth_outcome(h: Option<Seq<char>>, secret: Seq<u8>) -> Result<
    UserContext,
    AuthError,
> {
    match header_verdict(h) {
        HeaderVerdict::Missing => Err(AuthError::MissingHeader),
        HeaderVerdict::BadScheme => Err(AuthError::BadScheme),
        HeaderVerdict::NoToken => Err(AuthError::NoToken),
        HeaderVerdict::Token(t) => context_of_decoded(decoded(t, secret)),
    }
}

/// The authentication stage: reads the `Authorization` header value, decodes its bearer
/// credential and yields the identity to attach to the request, or the rejection.
/// Only an `Ok` lets the request go on to its handler.
pub fn jwt_middleware(authorization: Option<&str>, config: &AuthConfig) -> (r: Result<
    UserContext,
    AuthError,
>)
    ensures
        r == auth_outcome(opt_view(authorization), config.secret@),
{
    let token = match bearer_credential(authorization) {
        Ok(t) => t,
        Err(HeaderError::Missing) => return Err(AuthError::MissingHeader),
        Err(HeaderError::BadScheme) => return Err(AuthError::BadScheme),
        Err(HeaderError::NoToken) => return Err(AuthError::NoToken),
    };
    context_from_decoded(decode(token, config))
}

} // verus!
