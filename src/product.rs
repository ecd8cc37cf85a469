use vstd::prelude::*;
use vstd::string::StrSliceExecFns;

use crate::header::{is_space, is_space_char};
use crate::identity::UserContext;
use crate::permissions::{may_create_product, ProductPermission};
use crate::text::five_chars_equal;

verus! {

pub const CREATED: u16 = 201;

pub const BAD_REQUEST: u16 = 400;

pub const FORBIDDEN: u16 = 403;

pub const NOT_FOUND: u16 = 404;

pub const CONFLICT: u16 = 409;

pub const SERVER_ERROR: u16 = 500;

/// Why a product was not created.
#[derive(Clone, Copy, Debug, PartialEq, Eq, Structural)]
pub enum CreateProductError {
    /// The caller may not create products.
    Forbidden,
    /// The name is empty or only whitespace.
    NameRequired,
    /// The price is below zero.
    NegativePrice,
    /// The quantity is below zero.
    NegativeQuantity,
    /// The store reports a unique-key violation.
    Conflict,
    /// The store reports a foreign-key violation.
    InvalidReference,
    /// The store returned no row.
    NotFound,
    /// Any other store failure.
    Internal,
}

pub open spec fn error_status(e: CreateProductError) -> u16 {
    match e {
        CreateProductError::Forbidden => FORBIDDEN,
        CreateProductError::NameRequired => BAD_REQUEST,
        CreateProductError::NegativePrice => BAD_REQUEST,
        CreateProductError::NegativeQuantity => BAD_REQUEST,
        CreateProductError::Conflict => CONFLICT,
        CreateProductError::InvalidReference => BAD_REQUEST,
        CreateProductError::NotFound => NOT_FOUND,
        CreateProductError::Internal => SERVER_ERROR,
    }
}

impl CreateProductError {
    pub fn status_code(&self) -> (r: u16)
        ensures
            r == error_status(*self),
    {
        match self {
            CreateProductError::Forbidden => FORBIDDEN,
            CreateProductError::NameRequired => BAD_REQUEST,
            CreateProductError::NegativePrice => BAD_REQUEST,
            CreateProductError::NegativeQuantity => BAD_REQUEST,
            CreateProductError::Conflict => CONFLICT,
            CreateProductError::InvalidReference => BAD_REQUEST,
            CreateProductError::NotFound => NOT_FOUND,
            CreateProductError::Internal => SERVER_ERROR,
        }
    }

    /// The response text; store failures never carry their detail.
    pub fn message(&self) -> (r: &'static str)
        ensures
            *self == CreateProductError::Forbidden ==> r@
                == "You are not allowed to create products"@,
            *self == CreateProductError::NameRequired ==> r@ == "name is required"@,
            *self == CreateProductError::NegativePrice ==> r@ == "price must be >= 0"@,
            *self == CreateProductError::NegativeQuantity ==> r@ == "quantity must be >= 0"@,
            *self == CreateProductError::Conflict || *self == CreateProductError::InvalidReference
                || *self == CreateProductError::NotFound || *self == CreateProductError::Internal
                ==> r@ == "database error"@,
    {
        match self {
            CreateProductError::Forbidden => "You are not allowed to create products",
            CreateProductError::NameRequired => "name is required",
            CreateProductError::NegativePrice => "price must be >= 0",
            CreateProductError::NegativeQuantity => "quantity must be >= 0",
            _ => "database error",
        }
    }
}

/// Whether every character of `s` is whitespace (so also when `s` is empty).
pub open spec fn is_blank(s: Seq<char>) -> bool {
    forall|i: int| 0 <= i < s.len() ==> is_space(s[i])
}

pub fn blank(s: &str) -> (r: bool)
    ensures
        r == is_blank(s@),
{
    let len = s.unicode_len();
    let mut i: usize = 0;
    while i < len
        invariant
            len == s@.len(),
            i <= len,
            forall|k: int| 0 <= k < i ==> is_space(s@[k]),
        decreases len - i,
    {
        if !is_space_char(s.get_char(i)) {
            return false;
        }
        i = i + 1;
    }
    true
}

/// What the checks before any data operation decide: the owner to record the product
/// under, or the first check that fails, in the order permission, name, price, quantity.
pub open spec fn create_product_check(
    user: UserContext,
    name: Seq<char>,
    price_negative: bool,
    quantity: i32,
) -> Result<u128, CreateProductError> {
    if !may_create_product(user) {
        Err(CreateProductError::Forbidden)
    } else if is_blank(name) {
        Err(CreateProductError::NameRequired)
    } else if price_negative {
        Err(CreateProductError::NegativePrice)
    } else if quantity < 0 {
        Err(CreateProductError::NegativeQuantity)
    } else {
        Ok(user.user_id)
    }
}

/// The checks of a create-product request, made before any data operation: a denial
/// or an invalid payload means nothing is written. On success, the owner of the new row.
pub fn create_product(user: &UserContext, name: &str, price_negative: bool, quantity: i32) -> (r:
    Result<u128, CreateProductError>)
    ensures
        r == create_product_check(*user, name@, price_negative, quantity),
{
    if !ProductPermission::can_create_product(user) {
        return Err(CreateProductError::Forbidden);
    }
    if blank(name) {
        return Err(CreateProductError::NameRequired);
    }
    if price_negative {
        return Err(CreateProductError::NegativePrice);
    }
    if quantity < 0 {
        return Err(CreateProductError::NegativeQuantity);
    }
    Ok(user.user_id)
}

/// How a data operation failed.
#[derive(Clone, Debug)]
pub enum DbFailure {
    /// The database refused the statement, with its SQLSTATE code if it gave one.
    Database { code: Option<String> },
    /// The statement returned no row.
    RowNotFound,
    /// Any other failure (pool, I/O, decoding).
    Other,
}

pub open spec fn unique_violation() -> Seq<char> {
    seq!['2', '3', '5', '0', '5']
}

pub open spec fn foreign_key_violation() -> Seq<char> {
    seq!['2', '3', '5', '0', '3']
}

/// The error that a failed insert reports.
pub open spec fn db_failure_error(f: DbFailure) -> CreateProductError {
    match f {
        DbFailure::Database { code: Some(c) } => if c@ == unique_violation() {
            CreateProductError::Conflict
        } else if c@ == foreign_key_violation() {
            CreateProductError::InvalidReference
        } else {
            CreateProductError::Internal
        },
        DbFailure::Database { code: None } => CreateProductError::Internal,
        DbFailure::RowNotFound => CreateProductError::NotFound,
        DbFailure::Other => CreateProductError::Internal,
    }
}

pub fn classify_db_failure(f: &DbFailure) -> (r: CreateProductError)
    ensures
        r == db_failure_error(*f),
{
    match f {
        DbFailure::Database { code: Some(c) } => {
            if five_chars_equal(c.as_str(), '2', '3', '5', '0', '5') {
                CreateProductError::Conflict
            } else if five_chars_equal(c.as_str(), '2', '3', '5', '0', '3') {
                CreateProductError::InvalidReference
            } else {
                CreateProductError::Internal
            }
        },
        DbFailure::Database { code: None } => CreateProductError::Internal,
        DbFailure::RowNotFound => CreateProductError::NotFound,
        DbFailure::Other => CreateProductError::Internal,
    }
}

/// The response to an insert: `201` with the stored row, or the mapped failure.
pub fn finish_create_product<T>(outcome: Result<T, DbFailure>) -> (r: Result<
    (u16, T),
    CreateProductError,
>)
    ensures
        match outcome {
            Ok(p) => r is Ok && r->Ok_0.0 == CREATED && r->Ok_0.1 == p,
            Err(f) => r is Err && r->Err_0 == db_failure_error(f),
        },
{
    match outcome {
        Ok(p) => Ok((CREATED, p)),
        Err(f) => Err(classify_db_failure(&f)),
    }
}

} // verus!
