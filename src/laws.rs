use vstd::prelude::*;

use crate::decoder::{
    decoded, hs256_token_accepted, inventory_id_key, payload_iat, payload_member_text, role_key,
    user_id_key, uuid_value, DecodeError, IatField,
};
use crate::header::{has_bearer_prefix, header_verdict, HeaderVerdict};
use crate::identity::{AuthClaims, UserContext};
use crate::middleware::{auth_outcome, AuthError};
use crate::permissions::may_create_product;
use crate::product::{create_product_check, error_status, CreateProductError, FORBIDDEN};
use crate::roles::{admin_tag, role_of_tag, staff_tag, tag_of, Roles};

verus! {

/// A request without an `Authorization` header is rejected as missing it, so it
/// gets `401` and never reaches its handler.
pub proof fn missing_header_rejected(secret: Seq<u8>)
    ensures
        auth_outcome(None, secret) == Err::<UserContext, AuthError>(AuthError::MissingHeader),
{
}

/// A header value without the exact `Bearer ` prefix is rejected for its scheme.
pub proof fn bad_scheme_rejected(value: Seq<char>, secret: Seq<u8>)
    requires
        !has_bearer_prefix(value),
    ensures
        auth_outcome(Some(value), secret) == Err::<UserContext, AuthError>(AuthError::BadScheme),
{
}

/// Two header values that carry the same credential (or fail the same way) get the
/// same outcome: only the trimmed second word of a `Bearer ` value counts.
pub proof fn same_credential_same_outcome(h1: Seq<char>, h2: Seq<char>, secret: Seq<u8>)
    requires
        header_verdict(Some(h1)) == header_verdict(Some(h2)),
    ensures
        auth_outcome(Some(h1), secret) == auth_outcome(Some(h2), secret),
{
}

/// An accepted credential whose payload carries identifiers that spell UUIDs, a role
/// of the closed set and no malformed issued-at claim decodes to exactly those claims,
/// and the identity the stage attaches has the same subject, tenant and role.
pub proof fn accepted_token_identity(
    header: Seq<char>,
    token: Seq<char>,
    secret: Seq<u8>,
    user_text: Seq<char>,
    inventory_text: Seq<char>,
    user_id: u128,
    inventory_id: u128,
    role: Roles,
)
    requires
        header_verdict(Some(header)) == HeaderVerdict::Token(token),
        hs256_token_accepted(token, secret),
        payload_member_text(token, user_id_key()) == Some(user_text),
        payload_member_text(token, inventory_id_key()) == Some(inventory_text),
        payload_member_text(token, role_key()) == Some(tag_of(role)),
        uuid_value(user_text) == Some(user_id),
        uuid_value(inventory_text) == Some(inventory_id),
        payload_iat(token) != IatField::Invalid,
    ensures
        decoded(token, secret) is Ok,
        decoded(token, secret)->Ok_0.user_id == user_id,
        decoded(token, secret)->Ok_0.inventory_id == inventory_id,
        decoded(token, secret)->Ok_0.role == role,
        auth_outcome(Some(header), secret) == Ok::<UserContext, AuthError>(
            UserContext { user_id, inventory_id, role },
        ),
{
    assert(admin_tag() != staff_tag()) by {
        assert(admin_tag()[0] != staff_tag()[0]);
    }
}

/// A credential that is not accepted under the configured secret (signed with another
/// secret, malformed, or of another algorithm) is answered as an invalid token, whatever
/// its claims.
pub proof fn unaccepted_token_rejected(header: Seq<char>, token: Seq<char>, secret: Seq<u8>)
    requires
        header_verdict(Some(header)) == HeaderVerdict::Token(token),
        !hs256_token_accepted(token, secret),
    ensures
        decoded(token, secret) is Err,
        auth_outcome(Some(header), secret) == Err::<UserContext, AuthError>(
            AuthError::InvalidToken,
        ),
{
}

/// An accepted credential whose role tag is outside the closed set is a claim error,
/// which the authentication stage answers as an invalid token.
pub proof fn unknown_role_rejected(
    header: Seq<char>,
    token: Seq<char>,
    secret: Seq<u8>,
    tag: Seq<char>,
)
    requires
        header_verdict(Some(header)) == HeaderVerdict::Token(token),
        hs256_token_accepted(token, secret),
        payload_member_text(token, role_key()) == Some(tag),
        role_of_tag(tag) is None,
    ensures
        decoded(token, secret) == Err::<AuthClaims, DecodeError>(
            DecodeError::ClaimMissingOrInvalid,
        ),
        auth_outcome(Some(header), secret) == Err::<UserContext, AuthError>(
            AuthError::InvalidToken,
        ),
{
}

/// Staff may not create products; administrators may.
pub proof fn create_permission_by_role(user: UserContext)
    ensures
        user.role == Roles::Staff ==> !may_create_product(user),
        user.role == Roles::Admin ==> may_create_product(user),
{
}

/// A staff caller's create request is forbidden (`403`) before any payload check or
/// data operation, whatever the payload.
pub proof fn staff_create_forbidden(
    user: UserContext,
    name: Seq<char>,
    price_negative: bool,
    quantity: i32,
)
    requires
        user.role == Roles::Staff,
    ensures
        create_product_check(user, name, price_negative, quantity) == Err::<
            u128,
            CreateProductError,
        >(CreateProductError::Forbidden),
        error_status(CreateProductError::Forbidden) == FORBIDDEN,
{
}

} // verus!
