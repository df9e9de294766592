//! Data model: the persistent account record, the request shapes that reach
//! the core, and the response shapes it hands back.

use vstd::prelude::*;

verus! {

/// A registered account. `password` holds the bcrypt hash of the credential,
/// never the plaintext. `allow` gates authentication: a self-registered
/// account stays at `false` until explicitly approved.
pub struct User {
    pub id: u64,
    pub email: String,
    pub username: String,
    pub first_name: String,
    pub last_name: String,
    pub role: i32,
    pub password: String,
    pub allow: bool,
}

impl Clone for User {
    fn clone(&self) -> (res: Self)
        ensures
            res == *self,
    {
        User {
            id: self.id,
            email: self.email.clone(),
            username: self.username.clone(),
            first_name: self.first_name.clone(),
            last_name: self.last_name.clone(),
            role: self.role,
            password: self.password.clone(),
            allow: self.allow,
        }
    }
}

/// Login request: the credentials presented at the boundary.
pub struct LoginRequest {
    pub email: String,
    pub password: String,
}

impl Clone for LoginRequest {
    fn clone(&self) -> (res: Self)
        ensures
            res == *self,
    {
        LoginRequest { email: self.email.clone(), password: self.password.clone() }
    }
}

/// Registration request, for both the self-service and the admin path.
pub struct RegistrationRequest {
    pub email: String,
    pub username: String,
    pub first_name: String,
    pub last_name: String,
    pub password: String,
    pub role: i32,
}

impl Clone for RegistrationRequest {
    fn clone(&self) -> (res: Self)
        ensures
            res == *self,
    {
        RegistrationRequest {
            email: self.email.clone(),
            username: self.username.clone(),
            first_name: self.first_name.clone(),
            last_name: self.last_name.clone(),
            password: self.password.clone(),
            role: self.role,
        }
    }
}

/// Profile-update request: every field is written; a non-empty `password`
/// additionally replaces the stored credential.
pub struct UserChangeRequest {
    pub username: String,
    pub password: String,
    pub email: String,
    pub first_name: String,
    pub last_name: String,
    pub role: i32,
    pub allow: bool,
}

impl Clone for UserChangeRequest {
    fn clone(&self) -> (res: Self)
        ensures
            res == *self,
    {
        UserChangeRequest {
            username: self.username.clone(),
            password: self.password.clone(),
            email: self.email.clone(),
            first_name: self.first_name.clone(),
            last_name: self.last_name.clone(),
            role: self.role,
            allow: self.allow,
        }
    }
}

/// Password-reset request. The one-time code is delivered and checked outside
/// this core; the reset itself only needs the address and the new credential.
pub struct ForgetPasswordRequest {
    pub email: String,
    pub otp: String,
    pub new_password: String,
}

/// Partial profile-edit request (names and identity only, no credential).
pub struct EditUserRequest {
    pub email: String,
    pub username: String,
    pub first_name: String,
    pub last_name: String,
}

/// An issued session token: the opaque signed string.
pub struct Token {
    pub token: String,
}

/// Successful login: the session token plus the caller's identity and role.
#[allow(non_snake_case)]
pub struct LoginResponse {
    pub token: Token,
    pub userID: u64,
    pub role: i32,
}

/// Per-account listing entry: the account's public attributes.
pub struct UserListResponse {
    pub email: String,
    pub username: String,
    pub first_name: String,
    pub last_name: String,
    pub password: String,
    pub role: i32,
    pub allow: bool,
}

/// Plain acknowledgement returned by the mutating endpoints.
pub struct Success {
    pub message: String,
}

} // verus!
