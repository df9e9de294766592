//! The request-boundary layer: one function per endpoint, each running the
//! shape checks, the role gate where the action is administrative, and the
//! core flow, and recovering every internal outcome into the fixed set of
//! user-visible categories (status code plus cause string).

use vstd::prelude::*;
use vstd::string::*;
use crate::errors::{AllowError, ApiError, ErrorResponse, FeederError, LoginError, RegistrationError};
use crate::guard::AuthorizedUser;
use crate::hashing::bcrypt_verifies;
use crate::models::{
    ForgetPasswordRequest, LoginRequest, LoginResponse, RegistrationRequest, Success, User,
    UserChangeRequest,
};
use crate::policy::{permit, spec_role_permitted, Action};
use crate::registry::{
    email_index, has_email, has_id, has_username, id_index, patch_collides, user_by_email,
    AccountRegistry,
};
use crate::token::jwt_claims_of;
use crate::hashing::is_bcrypt_hash;
use crate::validate::{
    check_login_request, check_registration_request, login_fields_ok, mail_shape_ok,
    password_shape_ok, valid_registration_request, valid_text, LoginRequestError,
    RegistrationRequestError, LEN_LOGIN, LEN_PASSWORD, MIN_LEN_LOGIN, MIN_LEN_PASSWORD,
};

verus! {

/// The shape a login request must have to reach the core.
pub open spec fn login_shape_ok(req: LoginRequest) -> bool {
    valid_text(req.email@, LEN_LOGIN as int, MIN_LEN_LOGIN as int) && valid_text(
        req.password@,
        LEN_PASSWORD as int,
        MIN_LEN_PASSWORD as int,
    )
}

/// Login endpoint: shape check, then the ordered credential pipeline, each
/// internal outcome recovered into its boundary category.
pub fn login(
    database: &AccountRegistry,
    option_login_request: Option<LoginRequest>,
    secret: &str,
    expiration_token: u64,
    now: u64,
) -> (r: Result<LoginResponse, ApiError>)
    requires
        database.wf(),
        now + expiration_token <= u64::MAX,
    ensures
        !(option_login_request matches Some(req) && login_shape_ok(req)) ==> (r matches Err(e)
            && e.status == 400 && e.cause.cause@ == "Wrong request"@),
        option_login_request matches Some(req) ==> (login_shape_ok(req) ==> ((!has_email(database@, req.email@) ==> (r matches Err(e) && e.status == 400
                && e.cause.cause@ == "User not registered"@))
            && (has_email(database@, req.email@) && !bcrypt_verifies(
                req.password@,
                user_by_email(database@, req.email@).password@,
            ) ==> (r matches Err(e) && e.status == 400 && e.cause.cause@
                == "Password not correct"@))
            && (has_email(database@, req.email@) && bcrypt_verifies(
                req.password@,
                user_by_email(database@, req.email@).password@,
            ) && !user_by_email(database@, req.email@).allow ==> (r matches Err(e) && e.status == 400
                && e.cause.cause@ == "Login not permit"@))
            && (has_email(database@, req.email@) && bcrypt_verifies(
                req.password@,
                user_by_email(database@, req.email@).password@,
            ) && user_by_email(database@, req.email@).allow ==> (r matches Ok(resp) && ({
                let u = user_by_email(database@, req.email@);
                &&& resp.userID == u.id
                &&& resp.role == u.role
                &&& jwt_claims_of(resp.token.token@, secret@) == Some(
                    (u.id, u.role, (now + expiration_token) as u64),
                )
            }))))
        ),
{
    match check_login_request(option_login_request) {
        LoginRequestError::Valid(login_request) => {
            match database.login(&login_request, secret, expiration_token, now) {
                LoginError::Accepted(res) => Ok(res),
                LoginError::NotPermit => Err(
                    ApiError { status: 400, cause: ErrorResponse { cause: "Login not permit" } },
                ),
                LoginError::WrongLogin => Err(
                    ApiError { status: 400, cause: ErrorResponse { cause: "User not registered" } },
                ),
                LoginError::WrongPassword => Err(
                    ApiError {
                        status: 400,
                        cause: ErrorResponse { cause: "Password not correct" },
                    },
                ),
                LoginError::Unknown => Err(
                    ApiError { status: 400, cause: ErrorResponse { cause: "Wrong request" } },
                ),
            }
        },
        LoginRequestError::NoneLoginRequest => Err(
            ApiError { status: 400, cause: ErrorResponse { cause: "Wrong request" } },
        ),
        LoginRequestError::BadLogin => Err(
            ApiError { status: 400, cause: ErrorResponse { cause: "Wrong request" } },
        ),
        LoginRequestError::BadPassword => Err(
            ApiError { status: 400, cause: ErrorResponse { cause: "Wrong request" } },
        ),
    }
}

/// Self-service signup endpoint: shape check, then registration with the
/// created account left unapproved; a duplicate email wins over a duplicate
/// username, and nothing persists on any failure.
pub fn registration(
    database: &mut AccountRegistry,
    option_registration_request: Option<RegistrationRequest>,
    secret: &str,
    expiration_token: u64,
    now: u64,
) -> (r: Result<Success, ApiError>)
    requires
        old(database).wf(),
        now + expiration_token <= u64::MAX,
        old(database).spec_next_id() < u64::MAX,
    ensures
        final(database).wf(),
        r is Err ==> final(database)@ == old(database)@,
        !(option_registration_request matches Some(req) && valid_registration_request(req)) ==> (
        r is Err),
        option_registration_request is None ==> (r matches Err(e) && e.status == 400
            && e.cause.cause@ == "Wrong request"@),
        option_registration_request matches Some(req) ==> (!mail_shape_ok(req.email@) ==> (
        r matches Err(e) && e.status == 400 && e.cause.cause@ == "Wrong mail"@)),
        option_registration_request matches Some(req) ==> ((mail_shape_ok(req.email@)
            && !login_fields_ok(req)) ==> (r matches Err(e) && e.status == 400 && e.cause.cause@
            == "Weak login"@)),
        option_registration_request matches Some(req) ==> ((mail_shape_ok(req.email@)
            && login_fields_ok(req) && !password_shape_ok(req.password@)) ==> (r matches Err(e)
            && e.status == 400 && e.cause.cause@ == "Weak password"@)),
        option_registration_request matches Some(req) ==> (valid_registration_request(req) ==> ((has_email(old(database)@, req.email@) ==> (r matches Err(e) && e.status == 400
                && e.cause.cause@ == "Already registered by email"@))
            && (!has_email(old(database)@, req.email@) && has_username(old(database)@, req.username@) ==> (
            r matches Err(e) && e.status == 400 && e.cause.cause@
                == "Already registered by username"@))
        )),
        option_registration_request matches Some(req) ==> ((valid_registration_request(req)
            && !has_email(old(database)@, req.email@) && !has_username(
            old(database)@,
            req.username@,
        )) ==> ((r is Ok) || (r matches Err(e) && e.status == 400 && e.cause.cause@
            == "Weak password"@))),
        r matches Ok(s) ==> (option_registration_request matches Some(req)
            && valid_registration_request(req) && s.message@ == "Success"@ && !has_email(
            old(database)@,
            req.email@,
        ) && !has_username(old(database)@, req.username@) && ({
            let u = final(database)@.last();
            &&& final(database)@ == old(database)@.push(u)
            &&& u.id == old(database).spec_next_id()
            &&& u.email == req.email
            &&& u.username == req.username
            &&& u.first_name == req.first_name
            &&& u.last_name == req.last_name
            &&& u.role == req.role
            &&& u.allow == false
            &&& bcrypt_verifies(req.password@, u.password@)
        })),
{
    match check_registration_request(option_registration_request) {
        RegistrationRequestError::Valid(registration_request) => {
            match database.registration(&registration_request, secret, expiration_token, now) {
                RegistrationError::Registered(_) => Ok(
                    Success { message: String::from_str("Success") },
                ),
                RegistrationError::AlreadyRegisteredByEmail => Err(
                    ApiError {
                        status: 400,
                        cause: ErrorResponse { cause: "Already registered by email" },
                    },
                ),
                RegistrationError::AlreadyRegisteredByLogin => Err(
                    ApiError {
                        status: 400,
                        cause: ErrorResponse { cause: "Already registered by login" },
                    },
                ),
                RegistrationError::AlreadyRegisteredByUsername => Err(
                    ApiError {
                        status: 400,
                        cause: ErrorResponse { cause: "Already registered by username" },
                    },
                ),
                RegistrationError::WrongPassword => Err(
                    ApiError { status: 400, cause: ErrorResponse { cause: "Weak password" } },
                ),
                RegistrationError::Unknown => Err(
                    ApiError {
                        status: 500,
                        cause: ErrorResponse { cause: "Internal Server Error" },
                    },
                ),
            }
        },
        RegistrationRequestError::NoneRegistrationRequest => Err(
            ApiError { status: 400, cause: ErrorResponse { cause: "Wrong request" } },
        ),
        RegistrationRequestError::BadLogin => Err(
            ApiError { status: 400, cause: ErrorResponse { cause: "Weak login" } },
        ),
        RegistrationRequestError::BadPassword => Err(
            ApiError { status: 400, cause: ErrorResponse { cause: "Weak password" } },
        ),
        RegistrationRequestError::BadMail => Err(
            ApiError { status: 400, cause: ErrorResponse { cause: "Wrong mail" } },
        ),
    }
}

/// Admin account-creation endpoint: the role gate first, then the same
/// registration flow with the created account pre-activated.
pub fn admin_user_create(
    auth: &AuthorizedUser,
    option_registration_request: Option<RegistrationRequest>,
    database: &mut AccountRegistry,
    secret: &str,
    expiration_token: u64,
    now: u64,
) -> (r: Result<Success, ApiError>)
    requires
        old(database).wf(),
        now + expiration_token <= u64::MAX,
        old(database).spec_next_id() < u64::MAX,
    ensures
        final(database).wf(),
        r is Err ==> final(database)@ == old(database)@,
        !spec_role_permitted(auth.user_role) ==> (r matches Err(e) && e.status == 401
            && e.cause.cause@ == "You are not permit for this action"@ && final(database)@ == old(
            database,
        )@),
        option_registration_request matches Some(req) ==> ((spec_role_permitted(auth.user_role)
            && valid_registration_request(req)) ==> ((has_email(old(database)@, req.email@) ==> (r matches Err(e) && e.status == 400
                && e.cause.cause@ == "Already registered by email"@))
            && (!has_email(old(database)@, req.email@) && has_username(old(database)@, req.username@) ==> (
            r matches Err(e) && e.status == 400 && e.cause.cause@
                == "Already registered by username"@))
        )),
        r matches Err(e) && e.status == 401 ==> !spec_role_permitted(auth.user_role),
        spec_role_permitted(auth.user_role) && option_registration_request is None ==> (r matches
            Err(e) && e.status == 400 && e.cause.cause@ == "Wrong request"@),
        option_registration_request matches Some(req) ==> ((spec_role_permitted(auth.user_role)
            && !mail_shape_ok(req.email@)) ==> (r matches Err(e) && e.status == 400
            && e.cause.cause@ == "Wrong mail"@)),
        option_registration_request matches Some(req) ==> ((spec_role_permitted(auth.user_role)
            && mail_shape_ok(req.email@) && !login_fields_ok(req)) ==> (r matches Err(e)
            && e.status == 400 && e.cause.cause@ == "Weak login"@)),
        option_registration_request matches Some(req) ==> ((spec_role_permitted(auth.user_role)
            && mail_shape_ok(req.email@) && login_fields_ok(req) && !password_shape_ok(
            req.password@,
        )) ==> (r matches Err(e) && e.status == 400 && e.cause.cause@ == "Weak password"@)),
        option_registration_request matches Some(req) ==> ((spec_role_permitted(auth.user_role)
            && valid_registration_request(req) && !has_email(old(database)@, req.email@)
            && !has_username(old(database)@, req.username@)) ==> ((r is Ok) || (r matches Err(e)
            && e.status == 400 && e.cause.cause@ == "Weak password"@))),
        r matches Ok(s) ==> (option_registration_request matches Some(req)
            && spec_role_permitted(auth.user_role) && valid_registration_request(req)
            && s.message@ == "Success"@ && !has_email(
            old(database)@,
            req.email@,
        ) && !has_username(old(database)@, req.username@) && ({
            let u = final(database)@.last();
            &&& final(database)@ == old(database)@.push(u)
            &&& u.id == old(database).spec_next_id()
            &&& u.email == req.email
            &&& u.username == req.username
            &&& u.first_name == req.first_name
            &&& u.last_name == req.last_name
            &&& u.role == req.role
            &&& u.allow == true
            &&& bcrypt_verifies(req.password@, u.password@)
        })),
{
    if !permit(auth.user_role, Action::AdminCreateUser) {
        Err(
            ApiError {
                status: 401,
                cause: ErrorResponse { cause: "You are not permit for this action" },
            },
        )
    } else {
        match check_registration_request(option_registration_request) {
            RegistrationRequestError::Valid(registration_request) => {
                match database.admin_user_registration(
                    &registration_request,
                    secret,
                    expiration_token,
                    now,
                ) {
                    RegistrationError::Registered(_) => Ok(
                        Success { message: String::from_str("Success") },
                    ),
                    RegistrationError::AlreadyRegisteredByEmail => Err(
                        ApiError {
                            status: 400,
                            cause: ErrorResponse { cause: "Already registered by email" },
                        },
                    ),
                    RegistrationError::AlreadyRegisteredByLogin => Err(
                        ApiError {
                            status: 400,
                            cause: ErrorResponse { cause: "Already registered by login" },
                        },
                    ),
                    RegistrationError::AlreadyRegisteredByUsername => Err(
                        ApiError {
                            status: 400,
                            cause: ErrorResponse { cause: "Already registered by username" },
                        },
                    ),
                    RegistrationError::WrongPassword => Err(
                        ApiError { status: 400, cause: ErrorResponse { cause: "Weak password" } },
                    ),
                    RegistrationError::Unknown => Err(
                        ApiError {
                            status: 500,
                            cause: ErrorResponse { cause: "Internal Server Error" },
                        },
                    ),
                }
            },
            RegistrationRequestError::NoneRegistrationRequest => Err(
                ApiError { status: 400, cause: ErrorResponse { cause: "Wrong request" } },
            ),
            RegistrationRequestError::BadLogin => Err(
                ApiError { status: 400, cause: ErrorResponse { cause: "Weak login" } },
            ),
            RegistrationRequestError::BadPassword => Err(
                ApiError { status: 400, cause: ErrorResponse { cause: "Weak password" } },
            ),
            RegistrationRequestError::BadMail => Err(
                ApiError { status: 400, cause: ErrorResponse { cause: "Wrong mail" } },
            ),
        }
    }
}

/// Listing endpoint: gated on the caller's role, then every account.
pub fn get_userlist(auth: &AuthorizedUser, database: &AccountRegistry) -> (r: Result<
    Vec<User>,
    ApiError,
>)
    requires
        database.wf(),
    ensures
        !spec_role_permitted(auth.user_role) ==> (r matches Err(e) && e.status == 401
            && e.cause.cause@ == "You are not permit for this action"@),
        r is Err ==> !spec_role_permitted(auth.user_role),
        spec_role_permitted(auth.user_role) ==> (r matches Ok(v) && v@ == database@),
{
    if !permit(auth.user_role, Action::ListAccounts) {
        Err(
            ApiError {
                status: 401,
                cause: ErrorResponse { cause: "You are not permit for this action" },
            },
        )
    } else {
        Ok(database.getUserList())
    }
}

/// Single-account endpoint: the account behind an id, for any authenticated
/// caller.
pub fn get_userinfo(auth: &AuthorizedUser, id: u64, database: &AccountRegistry) -> (r: Result<
    User,
    ApiError,
>)
    requires
        database.wf(),
    ensures
        !has_id(database@, id) ==> (r matches Err(e) && e.status == 400 && e.cause.cause@
            == "Wrong request"@),
        has_id(database@, id) ==> (r matches Ok(u) && u == database@[id_index(database@, id)]),
{
    match database.get_userinfo(id) {
        Some(response) => Ok(response),
        None => Err(ApiError { status: 400, cause: ErrorResponse { cause: "Wrong request" } }),
    }
}

/// Deletion endpoint: gated on the caller's role; removal is immediate and
/// irreversible.
pub fn delete_user(auth: &AuthorizedUser, id: u64, database: &mut AccountRegistry) -> (r: Result<
    Success,
    ApiError,
>)
    requires
        old(database).wf(),
    ensures
        final(database).wf(),
        r is Err ==> final(database)@ == old(database)@,
        !spec_role_permitted(auth.user_role) ==> (r matches Err(e) && e.status == 401
            && e.cause.cause@ == "You are not permit for this action"@),
        spec_role_permitted(auth.user_role) && !has_id(old(database)@, id) ==> (r matches Err(e)
            && e.status == 400 && e.cause.cause@ == "Wrong request"@),
        spec_role_permitted(auth.user_role) && has_id(old(database)@, id) ==> (r is Ok && final(database)@ == old(database)@.remove(id_index(old(database)@, id)) && !has_id(final(database)@, id)),
        r matches Err(e) && e.status == 401 ==> !spec_role_permitted(auth.user_role),
        r matches Ok(s) ==> s.message@ == "Success"@,
{
    if !permit(auth.user_role, Action::DeleteAccount) {
        Err(
            ApiError {
                status: 401,
                cause: ErrorResponse { cause: "You are not permit for this action" },
            },
        )
    } else {
        match database.delete_user(id) {
            AllowError::Done => Ok(Success { message: String::from_str("Success") }),
            AllowError::UserNotFound => Err(
                ApiError { status: 400, cause: ErrorResponse { cause: "Wrong request" } },
            ),
        }
    }
}

/// Approval endpoint: gated on the caller's role; flips the account's
/// activation to `Active`.
pub fn user_allow(auth: &AuthorizedUser, id: u64, database: &mut AccountRegistry) -> (r: Result<
    Success,
    ApiError,
>)
    requires
        old(database).wf(),
    ensures
        final(database).wf(),
        r is Err ==> final(database)@ == old(database)@,
        !spec_role_permitted(auth.user_role) ==> (r matches Err(e) && e.status == 401
            && e.cause.cause@ == "You are not permit for this action"@),
        spec_role_permitted(auth.user_role) && !has_id(old(database)@, id) ==> (r matches Err(e)
            && e.status == 400 && e.cause.cause@ == "Wrong request"@),
        spec_role_permitted(auth.user_role) && has_id(old(database)@, id) ==> (r is Ok && final(database)@ == old(database)@.update(
            id_index(old(database)@, id),
            (User { allow: true, ..old(database)@[id_index(old(database)@, id)] }),
        )),
        r matches Err(e) && e.status == 401 ==> !spec_role_permitted(auth.user_role),
        r matches Ok(s) ==> s.message@ == "success"@,
{
    if !permit(auth.user_role, Action::ToggleActivation) {
        Err(
            ApiError {
                status: 401,
                cause: ErrorResponse { cause: "You are not permit for this action" },
            },
        )
    } else {
        match database.allow_user(id) {
            AllowError::Done => Ok(Success { message: String::from_str("success") }),
            AllowError::UserNotFound => Err(
                ApiError { status: 400, cause: ErrorResponse { cause: "Wrong request" } },
            ),
        }
    }
}

/// Password-reset endpoint: a pre-authentication recovery flow, so no token
/// and no role gate — only the new credential's minimum length is enforced;
/// the reset stores the new hash and revokes approval.
pub fn forget_password(
    data_body: Option<ForgetPasswordRequest>,
    database: &mut AccountRegistry,
) -> (r: Result<Success, ApiError>)
    requires
        old(database).wf(),
    ensures
        final(database).wf(),
        r is Err ==> final(database)@ == old(database)@,
        data_body is None ==> (r matches Err(e) && e.status == 500),
        data_body matches Some(req) && req.new_password@.len() < 5 ==> (r matches Err(e)
            && e.status == 400 && e.cause.cause@ == "Weak password"@),
        data_body matches Some(req) && req.new_password@.len() >= 5 && !has_email(
            old(database)@,
            req.email@,
        ) ==> (r matches Err(e) && e.status == 400 && e.cause.cause@ == "Wrong request"@),
        data_body matches Some(req) ==> ((req.new_password@.len() >= 5 && has_email(
            old(database)@,
            req.email@,
        )) ==> ((r is Ok) || (r matches Err(e) && e.status == 400 && e.cause.cause@
            == "Wrong request"@))),
        r matches Ok(s) ==> s.message@ == "success"@,
        r is Ok ==> (data_body matches Some(req) && req.new_password@.len() >= 5 && has_email(
            old(database)@,
            req.email@,
        ) && ({
            let i = email_index(old(database)@, req.email@);
            let u = final(database)@[i];
            &&& final(database)@ == old(database)@.update(i, u)
            &&& u.allow == false
            &&& bcrypt_verifies(req.new_password@, u.password@)
            &&& is_bcrypt_hash(u.password@)
            &&& u.id == old(database)@[i].id
            &&& u.email == old(database)@[i].email
            &&& u.username == old(database)@[i].username
            &&& u.first_name == old(database)@[i].first_name
            &&& u.last_name == old(database)@[i].last_name
            &&& u.role == old(database)@[i].role
        })),
{
    match data_body {
        None => Err(
            ApiError { status: 500, cause: ErrorResponse { cause: "Internal Server Error" } },
        ),
        Some(user_info) => {
            if user_info.new_password.as_str().unicode_len() < 5 {
                Err(ApiError { status: 400, cause: ErrorResponse { cause: "Weak password" } })
            } else {
                match database.forget_password(user_info.email, user_info.new_password) {
                    AllowError::Done => Ok(Success { message: String::from_str("success") }),
                    AllowError::UserNotFound => Err(
                        ApiError { status: 400, cause: ErrorResponse { cause: "Wrong request" } },
                    ),
                }
            }
        },
    }
}

/// Profile-update endpoint: gated on the caller's role, then the combined
/// field update, with the credential rehashed when the patch carries one.
pub fn user_change(
    auth: &AuthorizedUser,
    id: u64,
    userinfo_request: Option<UserChangeRequest>,
    database: &mut AccountRegistry,
) -> (r: Result<Success, ApiError>)
    requires
        old(database).wf(),
    ensures
        final(database).wf(),
        r is Err ==> final(database)@ == old(database)@,
        !spec_role_permitted(auth.user_role) ==> (r matches Err(e) && e.status == 401
            && e.cause.cause@ == "You are not permit for this action"@),
        spec_role_permitted(auth.user_role) && (userinfo_request is None || !has_id(
            old(database)@,
            id,
        )) ==> (r matches Err(e) && e.status == 400 && e.cause.cause@ == "Wrong request"@),
        r matches Err(e) && e.status == 401 ==> !spec_role_permitted(auth.user_role),
        r matches Ok(s) ==> s.message@ == "success"@,
        userinfo_request matches Some(info) ==> ((spec_role_permitted(auth.user_role) && has_id(
            old(database)@,
            id,
        ) && !patch_collides(old(database)@, id_index(old(database)@, id), info)
            && info.password@.len() == 0) ==> r is Ok),
        r is Ok ==> (userinfo_request matches Some(info)
            && spec_role_permitted(auth.user_role) && has_id(old(database)@, id) && !patch_collides(
            old(database)@,
            id_index(old(database)@, id),
            info,
        ) && ({
            let i = id_index(old(database)@, id);
            let u = final(database)@[i];
            &&& final(database)@ == old(database)@.update(i, u)
            &&& u.email == info.email
            &&& u.username == info.username
            &&& u.first_name == info.first_name
            &&& u.last_name == info.last_name
            &&& u.role == info.role
            &&& u.allow == info.allow
            && (info.password@.len() == 0 ==> u.password == old(database)@[i].password)
            && (info.password@.len() > 0 ==> bcrypt_verifies(info.password@, u.password@)
                && is_bcrypt_hash(u.password@))
        })),
{
    if !permit(auth.user_role, Action::EditProfile) {
        Err(
            ApiError {
                status: 401,
                cause: ErrorResponse { cause: "You are not permit for this action" },
            },
        )
    } else {
        match database.change_user(id, userinfo_request) {
            AllowError::Done => Ok(Success { message: String::from_str("success") }),
            AllowError::UserNotFound => Err(
                ApiError { status: 400, cause: ErrorResponse { cause: "Wrong request" } },
            ),
        }
    }
}

/// Super-admin seeding endpoint: idempotent at the boundary — an already
/// seeded directory is acknowledged, not an error.
pub fn feeder(
    database: &mut AccountRegistry,
    admin_email: String,
    admin_username: String,
    admin_password: String,
    admin_first_name: String,
    admin_last_name: String,
) -> (r: Result<Success, ApiError>)
    requires
        old(database).wf(),
        old(database).spec_next_id() < u64::MAX,
    ensures
        final(database).wf(),
        r is Ok,
        r matches Ok(s) ==> (s.message@ == "Success"@ || s.message@
            == "User already registered"@),
        r matches Ok(s) && s.message@ == "User already registered"@ ==> final(database)@ == old(
            database,
        )@,
        !has_email(old(database)@, admin_email@) && !has_username(old(database)@, admin_username@)
            ==> (r matches Ok(s) && (s.message@ == "Success"@ || (s.message@
            == "User already registered"@ && final(database)@ == old(database)@))),
        r matches Ok(s) && s.message@ == "Success"@ ==> (!has_email(old(database)@, admin_email@)
            && !has_username(old(database)@, admin_username@) && ({
            let u = final(database)@.last();
            &&& final(database)@ == old(database)@.push(u)
            &&& u.role == 0
            &&& u.allow == true
            &&& u.email == admin_email
            &&& bcrypt_verifies(admin_password@, u.password@)
        })),
{
    proof {
        reveal_strlit("Success");
        reveal_strlit("User already registered");
        assert("Success"@.len() != "User already registered"@.len());
    }
    match database.feeder(
        admin_email,
        admin_username,
        admin_password,
        admin_first_name,
        admin_last_name,
    ) {
        FeederError::Seeded(res) => Ok(Success { message: res }),
        FeederError::AlreadyRegisteredByEmail => Ok(
            Success { message: String::from_str("User already registered") },
        ),
        FeederError::AlreadyRegisteredByUsername => Ok(
            Success { message: String::from_str("User already registered") },
        ),
    }
}

} // verus!
