//! Credential-and-session backend for a multi-role user directory.
//!
//! Accounts register, are approved, authenticate, and are administered with
//! role-gated privileges. The library verifies the authentication and
//! authorization logic: password hashing and verification, signed session
//! token issuance and validation, the account-approval state machine,
//! registration uniqueness resolution, and role-based access enforcement.

pub mod api;
pub mod errors;
pub mod guard;
pub mod hashing;
pub mod models;
pub mod policy;
pub mod registry;
pub mod token;
pub mod validate;
