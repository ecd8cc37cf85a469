use vstd::prelude::*;

use crate::identity::AuthClaims;
use crate::roles::{role_of_tag, Roles};

verus! {

#[verifier::external_type_specification]
#[verifier::external_body]
pub struct ExJsonValue(serde_json::Value);

/// Why a token is not accepted under a secret, or `None` when it is accepted: a compact
/// HS256 token whose signature verifies under the secret, checked with no expiry or
/// not-before check and no registered claim required, and whose payload is JSON.
pub uninterp spec fn hs256_rejection(token: Seq<char>, secret: Seq<u8>) -> Option<DecodeError>;

pub open spec fn hs256_token_accepted(token: Seq<char>, secret: Seq<u8>) -> bool {
    hs256_rejection(token, secret) is None
}

/// The text of the string member `key` of the payload of `token`, if it has one.
pub uninterp spec fn payload_member_text(token: Seq<char>, key: Seq<char>) -> Option<Seq<char>>;

/// The value of the member `key` of the payload of `token`, if it is an integer in `u64`.
pub uninterp spec fn payload_member_u64(token: Seq<char>, key: Seq<char>) -> Option<u64>;

/// Whether the payload of `token` has no member `key`, or has it as `null`.
pub uninterp spec fn payload_member_unset(token: Seq<char>, key: Seq<char>) -> bool;

/// The 128-bit value of the UUID that `text` spells, if it spells one.
pub uninterp spec fn uuid_value(text: Seq<char>) -> Option<u128>;

/// The JSON payload of an accepted token, with the token it was read from.
pub struct Payload {
    value: serde_json::Value,
    pub token: Ghost<Seq<char>>,
}

/// Relies on jsonwebtoken::decode, with an HS256-only validation whose expiry
/// check is off and which requires no registered claim, and on its error kinds:
/// a signature mismatch is told apart from every other failure.
#[verifier::external_body]
fn decode_hs256(token: &str, secret: &[u8]) -> (r: Result<Payload, DecodeError>)
    ensures
        match r {
            Ok(p) => hs256_rejection(token@, secret@) is None && p.token@ == token@,
            Err(e) => hs256_rejection(token@, secret@) == Some(e),
        },
        r is Err ==> r->Err_0 == DecodeError::MalformedToken || r->Err_0
            == DecodeError::SignatureInvalid,
{
    let mut validation = jsonwebtoken::Validation::new(jsonwebtoken::Algorithm::HS256);
    validation.validate_exp = false;
    validation.required_spec_claims.clear();
    let key = jsonwebtoken::DecodingKey::from_secret(secret);
    match jsonwebtoken::decode::<serde_json::Value>(token, &key, &validation) {
        Ok(data) => Ok(Payload { value: data.claims, token: Ghost(token@) }),
        Err(e) => match e.kind() {
            jsonwebtoken::errors::ErrorKind::InvalidSignature => Err(DecodeError::SignatureInvalid),
            _ => Err(DecodeError::MalformedToken),
        },
    }
}

/// Relies on serde_json::Value::get and Value::as_str: the text of a string member.
#[verifier::external_body]
fn payload_text<'a>(p: &'a Payload, key: &str) -> (r: Option<&'a str>)
    ensures
        opt_view(r) == payload_member_text(p.token@, key@),
{
    p.value.get(key).and_then(|v| v.as_str())
}

/// Relies on serde_json::Value::get and Value::as_u64: a member that is an integer in `u64`.
#[verifier::external_body]
fn payload_u64(p: &Payload, key: &str) -> (r: Option<u64>)
    ensures
        r == payload_member_u64(p.token@, key@),
{
    p.value.get(key).and_then(|v| v.as_u64())
}

/// Relies on serde_json::Value::get and Value::is_null: a member that is absent or `null`.
#[verifier::external_body]
fn payload_unset(p: &Payload, key: &str) -> (r: bool)
    ensures
        r == payload_member_unset(p.token@, key@),
{
    p.value.get(key).map_or(true, |v| v.is_null())
}

/// Relies on uuid::Uuid::parse_str, the parser that a UUID claim is read with.
#[verifier::external_body]
fn parse_uuid(text: &str) -> (r: Option<u128>)
    ensures
        r == uuid_value(text@),
{
    uuid::Uuid::parse_str(text).ok().map(|u| u.as_u128())
}

/// Why a credential does not decode into a claim set.
#[derive(Clone, Copy, Debug, PartialEq, Eq, Structural)]
pub enum DecodeError {
    /// Not decodable as a compact HS256 token with a JSON payload.
    MalformedToken,
    /// The signature does not verify under the configured secret.
    SignatureInvalid,
    /// A required claim is absent or does not have its type.
    ClaimMissingOrInvalid,
}

/// How the optional issued-at claim reads.
#[derive(Clone, Copy, Debug, PartialEq, Eq, Structural)]
pub enum IatField {
    /// Absent, or `null`.
    Absent,
    /// A non-negative integer.
    Number(u64),
    /// Present with another type.
    Invalid,
}

/// The claim set that the read claim fields make up, or the claim error.
pub open spec fn assembled_claims(
    user_id: Option<u128>,
    inventory_id: Option<u128>,
    role_tag: Option<Seq<char>>,
    iat: IatField,
) -> Result<AuthClaims, DecodeError> {
    match (user_id, inventory_id, role_tag, iat) {
        (Some(u), Some(i), Some(t), IatField::Absent) => match role_of_tag(t) {
            Some(role) => Ok(AuthClaims { user_id: u, inventory_id: i, role, iat: None }),
            None => Err(DecodeError::ClaimMissingOrInvalid),
        },
        (Some(u), Some(i), Some(t), IatField::Number(n)) => match role_of_tag(t) {
            Some(role) => Ok(AuthClaims { user_id: u, inventory_id: i, role, iat: Some(n) }),
            None => Err(DecodeError::ClaimMissingOrInvalid),
        },
        _ => Err(DecodeError::ClaimMissingOrInvalid),
    }
}

/// The characters of an optional text.
pub open spec fn opt_view(s: Option<&str>) -> Option<Seq<char>> {
    match s {
        Some(t) => Some(t@),
        None => None,
    }
}

pub open spec fn uuid_of_field(s: Option<Seq<char>>) -> Option<u128> {
    match s {
        Some(t) => uuid_value(t),
        None => None,
    }
}

/// Builds the claim set from its read fields: both identifiers present, the role tag
/// one of the closed set, and the issued-at claim absent or an integer.
pub fn assemble_claims(
    user_id: Option<u128>,
    inventory_id: Option<u128>,
    role_tag: Option<&str>,
    iat: IatField,
) -> (r: Result<AuthClaims, DecodeError>)
    ensures
        r == assembled_claims(user_id, inventory_id, opt_view(role_tag), iat),
{
    let (u, i, t) = match (user_id, inventory_id, role_tag) {
        (Some(u), Some(i), Some(t)) => (u, i, t),
        _ => return Err(DecodeError::ClaimMissingOrInvalid),
    };
    let role = match Roles::from_tag(t) {
        Some(role) => role,
        None => return Err(DecodeError::ClaimMissingOrInvalid),
    };
    match iat {
        IatField::Absent => Ok(AuthClaims { user_id: u, inventory_id: i, role, iat: None }),
        IatField::Number(n) => Ok(AuthClaims { user_id: u, inventory_id: i, role, iat: Some(n) }),
        IatField::Invalid => Err(DecodeError::ClaimMissingOrInvalid),
    }
}

fn uuid_field(text: Option<&str>) -> (r: Option<u128>)
    ensures
        r == uuid_of_field(opt_view(text)),
{
    match text {
        Some(t) => parse_uuid(t),
        None => None,
    }
}

/// Builds the claim set from the claim texts of a payload: identifiers must spell UUIDs.
pub fn claims_from_fields(
    user_id: Option<&str>,
    inventory_id: Option<&str>,
    role_tag: Option<&str>,
    iat: IatField,
) -> (r: Result<AuthClaims, DecodeError>)
    ensures
        r == assembled_claims(
            uuid_of_field(opt_view(user_id)),
            uuid_of_field(opt_view(inventory_id)),
            opt_view(role_tag),
            iat,
        ),
{
    let u = uuid_field(user_id);
    let i = uuid_field(inventory_id);
    assemble_claims(u, i, role_tag, iat)
}

pub open spec fn user_id_key() -> Seq<char> {
    seq!['u', 's', 'e', 'r', 'I', 'd']
}

pub open spec fn inventory_id_key() -> Seq<char> {
    seq!['i', 'n', 'v', 'e', 'n', 't', 'o', 'r', 'y', 'I', 'd']
}

pub open spec fn role_key() -> Seq<char> {
    seq!['r', 'o', 'l', 'e']
}

pub open spec fn iat_key() -> Seq<char> {
    seq!['i', 'a', 't']
}

/// How the issued-at member of the payload of `token` reads.
pub open spec fn payload_iat(token: Seq<char>) -> IatField {
    if payload_member_unset(token, iat_key()) {
        IatField::Absent
    } else {
        match payload_member_u64(token, iat_key()) {
            Some(n) => IatField::Number(n),
            None => IatField::Invalid,
        }
    }
}

/// The claim set that the payload of `token` carries, or the claim error.
pub open spec fn payload_claims(token: Seq<char>) -> Result<AuthClaims, DecodeError> {
    assembled_claims(
        uuid_of_field(payload_member_text(token, user_id_key())),
        uuid_of_field(payload_member_text(token, inventory_id_key())),
        payload_member_text(token, role_key()),
        payload_iat(token),
    )
}

/// What decoding `token` under `secret` yields.
pub open spec fn decoded(token: Seq<char>, secret: Seq<u8>) -> Result<AuthClaims, DecodeError> {
    match hs256_rejection(token, secret) {
        Some(e) => Err(e),
        None => payload_claims(token),
    }
}

fn iat_of(p: &Payload) -> (r: IatField)
    ensures
        r == payload_iat(p.token@),
{
    proof {
        reveal_strlit("iat");
        assert("iat"@ =~= iat_key());
    }
    if payload_unset(p, "iat") {
        IatField::Absent
    } else {
        match payload_u64(p, "iat") {
            Some(n) => IatField::Number(n),
            None => IatField::Invalid,
        }
    }
}

/// The shared signing secret and the fixed HS256 policy it is used with.
#[derive(Clone, Debug)]
pub struct AuthConfig {
    pub secret: Vec<u8>,
}

impl AuthConfig {
    pub fn from_secret(secret: Vec<u8>) -> (r: AuthConfig)
        ensures
            r.secret@ == secret@,
    {
        AuthConfig { secret }
    }
}

/// Verifies a raw credential under the configured secret and reads its claim set.
/// A token that is not accepted fails with a token error, never a claim error; an
/// accepted one yields the claims of its payload, or a claim error.
pub fn decode(token: &str, config: &AuthConfig) -> (r: Result<AuthClaims, DecodeError>)
    ensures
        r == decoded(token@, config.secret@),
        !hs256_token_accepted(token@, config.secret@) ==> r is Err && r->Err_0
            != DecodeError::ClaimMissingOrInvalid,
{
    let payload = match decode_hs256(token, config.secret.as_slice()) {
        Ok(p) => p,
        Err(e) => return Err(e),
    };
    proof {
        reveal_strlit("userId");
        reveal_strlit("inventoryId");
        reveal_strlit("role");
        assert("userId"@ =~= user_id_key());
        assert("inventoryId"@ =~= inventory_id_key());
        assert("role"@ =~= role_key());
    }
    let user_id = payload_text(&payload, "userId");
    let inventory_id = payload_text(&payload, "inventoryId");
    let role = payload_text(&payload, "role");
    let iat = iat_of(&payload);
    claims_from_fields(user_id, inventory_id, role, iat)
}

} // verus!
