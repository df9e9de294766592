//! Shape checks on incoming requests: field lengths and the mail form. These
//! run before the core flows; a request that fails here never reaches the
//! registry.

use vstd::prelude::*;
use vstd::string::*;
use crate::models::{EditUserRequest, LoginRequest, RegistrationRequest};

verus! {

/// Longest accepted email or username.
pub const LEN_LOGIN: usize = 64;

/// Longest accepted password.
pub const LEN_PASSWORD: usize = 64;

/// Longest accepted first name.
pub const LEN_FIRST_NAME: usize = 64;

/// Longest accepted last name.
pub const LEN_LAST_NAME: usize = 64;

/// Shortest accepted email or username.
pub const MIN_LEN_LOGIN: usize = 3;

/// Shortest accepted password.
pub const MIN_LEN_PASSWORD: usize = 5;

/// A required field: non-empty and within the length bounds.
pub open spec fn valid_text(s: Seq<char>, max_size: int, min_size: int) -> bool {
    s.len() != 0 && min_size <= s.len() && s.len() <= max_size
}

/// An optional field: empty, or within the length bounds.
pub open spec fn valid_name(s: Seq<char>, max_size: int, min_size: int) -> bool {
    s.len() == 0 || (min_size <= s.len() && s.len() <= max_size)
}

/// A mail address for this system's purposes: somewhere it holds an `@`.
pub open spec fn has_at_sign(s: Seq<char>) -> bool {
    exists|i: int| 0 <= i < s.len() && s[i] == '@'
}

/// Outcome of validating a whole registration request.
pub enum TypeValidDataFromRegistration {
    Valid,
    BadLogin,
    BadPassword,
    BadMail,
}

/// Outcome of validating a pair of required fields.
pub enum TypeValidTwoStr {
    Valid,
    BadFirst,
    BadSecond,
}

/// Outcome of validating a mail address.
pub enum TypeValidMail {
    Valid,
    BadMail,
}

/// Outcome of validating a login request.
pub enum LoginRequestError {
    Valid(LoginRequest),
    NoneLoginRequest,
    BadLogin,
    BadPassword,
}

/// Outcome of validating a registration request.
pub enum RegistrationRequestError {
    Valid(RegistrationRequest),
    NoneRegistrationRequest,
    BadLogin,
    BadPassword,
    BadMail,
}

/// Outcome of validating a profile-edit request.
pub enum EditUserRequestError {
    Valid(EditUserRequest),
    NoneEditModel,
    BadMail,
    BadLogin,
    BadFirstName,
    BadLastName,
}

/// A required field passes exactly when it is non-empty and its length lies
/// within `min_size..=max_size`.
pub fn check_valid_text(text: &str, max_size: usize, min_size: usize) -> (r: bool)
    ensures
        r == valid_text(text@, max_size as int, min_size as int),
{
    let len = text.unicode_len();
    len != 0 && len <= max_size && len >= min_size
}

/// An optional field passes exactly when it is empty or its length lies
/// within `min_size..=max_size`.
pub fn check_valid_name(text: &str, max_size: usize, min_size: usize) -> (r: bool)
    ensures
        r == valid_name(text@, max_size as int, min_size as int),
{
    let len = text.unicode_len();
    len == 0 || (len <= max_size && len >= min_size)
}

/// A mail address passes exactly when it holds an `@` somewhere.
pub fn get_valid_mail(mail: &str) -> (r: TypeValidMail)
    ensures
        (r is Valid) == has_at_sign(mail@),
{
    let len = mail.unicode_len();
    let mut i: usize = 0;
    while i < len
        invariant
            i <= len,
            len == mail@.len(),
            forall|j: int| 0 <= j < i ==> mail@[j] != '@',
        decreases len - i,
    {
        if mail.get_char(i) == '@' {
            return TypeValidMail::Valid;
        }
        i += 1;
    }
    TypeValidMail::BadMail
}

/// Check a required pair, the first field against `len_first` and the second
/// against `len_second`, with the login and password minimums.
pub fn get_valid_username_and_password(
    first: &str,
    second: &str,
    len_first: usize,
    len_second: usize,
) -> (r: TypeValidTwoStr)
    ensures
        (r is BadFirst) == !valid_text(first@, len_first as int, MIN_LEN_LOGIN as int),
        !(r is BadFirst) ==> (r is BadSecond) == !valid_text(
            second@,
            len_second as int,
            MIN_LEN_PASSWORD as int,
        ),
        (r is Valid) == (valid_text(first@, len_first as int, MIN_LEN_LOGIN as int) && valid_text(
            second@,
            len_second as int,
            MIN_LEN_PASSWORD as int,
        )),
{
    if !check_valid_text(first, len_first, MIN_LEN_LOGIN) {
        TypeValidTwoStr::BadFirst
    } else if !check_valid_text(second, len_second, MIN_LEN_PASSWORD) {
        TypeValidTwoStr::BadSecond
    } else {
        TypeValidTwoStr::Valid
    }
}

/// A well-shaped mail address: holds an `@` and has a valid length.
pub open spec fn mail_shape_ok(email: Seq<char>) -> bool {
    has_at_sign(email) && valid_text(email, LEN_LOGIN as int, MIN_LEN_LOGIN as int)
}

/// The login-side fields of a registration request in shape: a valid
/// username, and names that are empty or within bounds.
pub open spec fn login_fields_ok(r: RegistrationRequest) -> bool {
    &&& valid_text(r.username@, LEN_LOGIN as int, MIN_LEN_LOGIN as int)
    &&& valid_name(r.first_name@, LEN_FIRST_NAME as int, MIN_LEN_LOGIN as int)
    &&& valid_name(r.last_name@, LEN_LAST_NAME as int, MIN_LEN_LOGIN as int)
}

/// A well-shaped password: a required field within the password bounds.
pub open spec fn password_shape_ok(password: Seq<char>) -> bool {
    valid_text(password, LEN_PASSWORD as int, MIN_LEN_PASSWORD as int)
}

/// Every shape rule a registration request must meet: a well-shaped mail
/// address, the login-side fields in shape, and a well-shaped password.
pub open spec fn valid_registration_request(r: RegistrationRequest) -> bool {
    mail_shape_ok(r.email@) && login_fields_ok(r) && password_shape_ok(r.password@)
}

/// Validate the fields of a registration request, naming the failing field
/// in precedence order: the mail shape first, then the login-side fields
/// (username and the optional names), then the password.
pub fn valid_registration_data_user(
    registration_request: &RegistrationRequest,
    len_first_name: usize,
    len_last_name: usize,
    len_login: usize,
    len_password: usize,
) -> (r: TypeValidDataFromRegistration)
    requires
        len_first_name == LEN_FIRST_NAME,
        len_last_name == LEN_LAST_NAME,
        len_login == LEN_LOGIN,
        len_password == LEN_PASSWORD,
    ensures
        (r is BadMail) == !mail_shape_ok(registration_request.email@),
        mail_shape_ok(registration_request.email@) ==> ((r is BadLogin) == !login_fields_ok(
            *registration_request,
        )),
        mail_shape_ok(registration_request.email@) && login_fields_ok(*registration_request)
            ==> ((r is BadPassword) == !password_shape_ok(registration_request.password@)),
        (r is Valid) == valid_registration_request(*registration_request),
{
    match get_valid_mail(registration_request.email.as_str()) {
        TypeValidMail::BadMail => TypeValidDataFromRegistration::BadMail,
        TypeValidMail::Valid => {
            if !check_valid_text(registration_request.email.as_str(), len_login, MIN_LEN_LOGIN) {
                TypeValidDataFromRegistration::BadMail
            } else if !check_valid_text(
                registration_request.username.as_str(),
                len_login,
                MIN_LEN_LOGIN,
            ) {
                TypeValidDataFromRegistration::BadLogin
            } else if !check_valid_name(
                registration_request.first_name.as_str(),
                len_first_name,
                MIN_LEN_LOGIN,
            ) {
                TypeValidDataFromRegistration::BadLogin
            } else if !check_valid_name(
                registration_request.last_name.as_str(),
                len_last_name,
                MIN_LEN_LOGIN,
            ) {
                TypeValidDataFromRegistration::BadLogin
            } else if !check_valid_text(
                registration_request.password.as_str(),
                len_password,
                MIN_LEN_PASSWORD,
            ) {
                TypeValidDataFromRegistration::BadPassword
            } else {
                TypeValidDataFromRegistration::Valid
            }
        },
    }
}

/// Validate a login request: present, with a valid email and password shape.
pub fn check_login_request(option_login_request: Option<LoginRequest>) -> (r: LoginRequestError)
    ensures
        (option_login_request is None) == (r is NoneLoginRequest),
        r matches LoginRequestError::Valid(req) ==> option_login_request == Some(req) && valid_text(
            req.email@,
            LEN_LOGIN as int,
            MIN_LEN_LOGIN as int,
        ) && valid_text(req.password@, LEN_PASSWORD as int, MIN_LEN_PASSWORD as int),
        option_login_request matches Some(req) ==> ((r is Valid) == (valid_text(
            req.email@,
            LEN_LOGIN as int,
            MIN_LEN_LOGIN as int,
        ) && valid_text(req.password@, LEN_PASSWORD as int, MIN_LEN_PASSWORD as int))),
        option_login_request matches Some(req) ==> ((r is BadLogin) == !valid_text(
            req.email@,
            LEN_LOGIN as int,
            MIN_LEN_LOGIN as int,
        )),
        option_login_request matches Some(req) ==> (valid_text(
            req.email@,
            LEN_LOGIN as int,
            MIN_LEN_LOGIN as int,
        ) ==> ((r is BadPassword) == !valid_text(
            req.password@,
            LEN_PASSWORD as int,
            MIN_LEN_PASSWORD as int,
        ))),
{
    match option_login_request {
        None => LoginRequestError::NoneLoginRequest,
        Some(login_request) => {
            match get_valid_username_and_password(
                login_request.email.as_str(),
                login_request.password.as_str(),
                LEN_LOGIN,
                LEN_PASSWORD,
            ) {
                TypeValidTwoStr::Valid => LoginRequestError::Valid(login_request),
                TypeValidTwoStr::BadFirst => LoginRequestError::BadLogin,
                TypeValidTwoStr::BadSecond => LoginRequestError::BadPassword,
            }
        },
    }
}

/// Validate a registration request: present, with every field in shape.
pub fn check_registration_request(
    option_registration_request: Option<RegistrationRequest>,
) -> (r: RegistrationRequestError)
    ensures
        (option_registration_request is None) == (r is NoneRegistrationRequest),
        r matches RegistrationRequestError::Valid(req) ==> option_registration_request == Some(req)
            && valid_registration_request(req),
        option_registration_request matches Some(req) ==> ((r is Valid)
            == valid_registration_request(req)),
        option_registration_request matches Some(req) ==> ((r is BadMail) == !mail_shape_ok(
            req.email@,
        )),
        option_registration_request matches Some(req) ==> (mail_shape_ok(req.email@) ==> ((r
            is BadLogin) == !login_fields_ok(req))),
        option_registration_request matches Some(req) ==> ((mail_shape_ok(req.email@)
            && login_fields_ok(req)) ==> ((r is BadPassword) == !password_shape_ok(
            req.password@,
        ))),
{
    match option_registration_request {
        None => RegistrationRequestError::NoneRegistrationRequest,
        Some(registration_request) => {
            match valid_registration_data_user(
                &registration_request,
                LEN_FIRST_NAME,
                LEN_LAST_NAME,
                LEN_LOGIN,
                LEN_PASSWORD,
            ) {
                TypeValidDataFromRegistration::Valid => RegistrationRequestError::Valid(
                    registration_request,
                ),
                TypeValidDataFromRegistration::BadLogin => RegistrationRequestError::BadLogin,
                TypeValidDataFromRegistration::BadPassword => RegistrationRequestError::BadPassword,
                TypeValidDataFromRegistration::BadMail => RegistrationRequestError::BadMail,
            }
        },
    }
}

} // verus!
