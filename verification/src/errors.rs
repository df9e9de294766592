//! Outcome enumerations of the core operations, and the coarse user-visible
//! error shape the boundary recovers them into.

use vstd::prelude::*;
use crate::models::{LoginResponse, Token};

verus! {

/// Outcome of a login attempt: a strict ordered pipeline where each failure
/// is a distinct terminal outcome.
pub enum LoginError {
    Accepted(LoginResponse),
    WrongLogin,
    WrongPassword,
    NotPermit,
    Unknown,
}

/// Outcome of a registration attempt. `AlreadyRegisteredByLogin` is the
/// signal for a store-lookup failure during uniqueness resolution; the
/// in-memory registry's lookups cannot fail, so it reports it never.
pub enum RegistrationError {
    Registered(Token),
    AlreadyRegisteredByEmail,
    AlreadyRegisteredByLogin,
    AlreadyRegisteredByUsername,
    WrongPassword,
    Unknown,
}

/// Outcome of seeding the super-admin account.
pub enum FeederError {
    Seeded(String),
    AlreadyRegisteredByEmail,
    AlreadyRegisteredByUsername,
}

/// Result of the ordered email-then-username uniqueness resolution.
/// `UserFoundByLogin` stands for a lookup-layer failure and is treated as
/// non-registerable, never as a green light to insert.
pub enum FindUserBy {
    UserNotFound,
    UserFoundByLogin,
    UserFoundByEmail,
    UserFoundByUsername,
}

/// Outcome of an account mutation: done, or the account was not found
/// (or the request was unusable).
pub enum AllowError {
    Done,
    UserNotFound,
}

/// The coarse cause string handed to the client.
#[derive(Debug)]
pub struct ErrorResponse {
    pub cause: &'static str,
}

/// Boundary error: an HTTP-style status code with its cause.
#[derive(Debug)]
pub struct ApiError {
    pub status: u16,
    pub cause: ErrorResponse,
}

/// Catcher for requests that failed authorization.
pub fn unauthorized() -> (r: ErrorResponse)
    ensures
        r.cause@ == "Unauthorized"@,
{
    ErrorResponse { cause: "Unauthorized" }
}

/// Catcher for requests naming a missing resource.
pub fn not_found() -> (r: ErrorResponse)
    ensures
        r.cause@ == "Not found"@,
{
    ErrorResponse { cause: "Not found" }
}

/// Catcher for internal faults.
pub fn internal_sever_error() -> (r: ErrorResponse)
    ensures
        r.cause@ == "Internal Server Error"@,
{
    ErrorResponse { cause: "Internal Server Error" }
}

} // verus!
