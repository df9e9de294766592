use usermanager::api;
use usermanager::errors::{unauthorized, not_found, internal_sever_error};
use usermanager::guard::AuthorizedUser;
use usermanager::models::{ForgetPasswordRequest, LoginRequest, RegistrationRequest, UserChangeRequest};
use usermanager::policy::{permit, Action};
use usermanager::registry::AccountRegistry;
use usermanager::validate::{
    check_login_request, check_registration_request, check_valid_name, check_valid_text,
    LoginRequestError, RegistrationRequestError,
};

const SECRET: &str = "api-secret";
const TTL: u64 = 3600;
const NOW: u64 = 1_700_000_000;

fn sample_request() -> RegistrationRequest {
    RegistrationRequest {
        email: "a@x.com".to_string(),
        username: "alice".to_string(),
        first_name: "Alice".to_string(),
        last_name: "Archer".to_string(),
        password: "secretpw".to_string(),
        role: 1,
    }
}

#[test]
fn role_gate_admits_exactly_the_three_admin_tiers() {
    for action in [
        Action::AdminCreateUser,
        Action::ToggleActivation,
        Action::EditProfile,
        Action::DeleteAccount,
        Action::ListAccounts,
    ] {
        assert!(permit(0, action));
        assert!(permit(1, action));
        assert!(permit(2, action));
        assert!(!permit(3, action));
        assert!(!permit(-1, action));
        assert!(!permit(i32::MIN, action));
        assert!(!permit(i32::MAX, action));
    }
}

#[test]
fn admin_create_rejects_an_unprivileged_caller() {
    let mut registry = AccountRegistry::new();
    let caller = AuthorizedUser { user_id: 9, user_role: 7 };
    let outcome = api::admin_user_create(
        &caller,
        Some(sample_request()),
        &mut registry,
        SECRET,
        TTL,
        NOW,
    );
    let err = outcome.err().expect("role 7 must be refused");
    assert_eq!(err.status, 401);
    assert_eq!(err.cause.cause, "You are not permit for this action");
    assert_eq!(registry.getUserList().len(), 0);
}

#[test]
fn admin_create_with_a_privileged_caller_pre_activates() {
    let mut registry = AccountRegistry::new();
    let caller = AuthorizedUser { user_id: 9, user_role: 2 };
    let ack = api::admin_user_create(
        &caller,
        Some(sample_request()),
        &mut registry,
        SECRET,
        TTL,
        NOW,
    )
    .expect("an admin may create accounts");
    assert_eq!(ack.message, "Success");
    assert!(registry.getUserList()[0].allow);
}

#[test]
fn login_endpoint_maps_each_outcome_to_its_category() {
    let mut registry = AccountRegistry::new();
    let caller = AuthorizedUser { user_id: 9, user_role: 0 };
    api::admin_user_create(&caller, Some(sample_request()), &mut registry, SECRET, TTL, NOW)
        .expect("seeding the account");

    let ok = api::login(
        &registry,
        Some(LoginRequest { email: "a@x.com".to_string(), password: "secretpw".to_string() }),
        SECRET,
        TTL,
        NOW,
    )
    .expect("correct credentials on an approved account");
    assert_eq!(ok.role, 1);

    let missing = api::login(&registry, None, SECRET, TTL, NOW).err().unwrap();
    assert_eq!(missing.status, 400);
    assert_eq!(missing.cause.cause, "Wrong request");

    let unknown = api::login(
        &registry,
        Some(LoginRequest { email: "b@x.com".to_string(), password: "secretpw".to_string() }),
        SECRET,
        TTL,
        NOW,
    )
    .err()
    .unwrap();
    assert_eq!(unknown.cause.cause, "User not registered");

    let wrong = api::login(
        &registry,
        Some(LoginRequest { email: "a@x.com".to_string(), password: "wrong-pw".to_string() }),
        SECRET,
        TTL,
        NOW,
    )
    .err()
    .unwrap();
    assert_eq!(wrong.cause.cause, "Password not correct");
}

#[test]
fn login_endpoint_reports_not_permit_for_unapproved_accounts() {
    let mut registry = AccountRegistry::new();
    api::registration(&mut registry, Some(sample_request()), SECRET, TTL, NOW)
        .expect("self-service signup");
    let gated = api::login(
        &registry,
        Some(LoginRequest { email: "a@x.com".to_string(), password: "secretpw".to_string() }),
        SECRET,
        TTL,
        NOW,
    )
    .err()
    .unwrap();
    assert_eq!(gated.status, 400);
    assert_eq!(gated.cause.cause, "Login not permit");
}

#[test]
fn registration_endpoint_reports_duplicates() {
    let mut registry = AccountRegistry::new();
    api::registration(&mut registry, Some(sample_request()), SECRET, TTL, NOW)
        .expect("first signup");
    let mut second = sample_request();
    second.username = "bob".to_string();
    let err = api::registration(&mut registry, Some(second), SECRET, TTL, NOW).err().unwrap();
    assert_eq!(err.status, 400);
    assert_eq!(err.cause.cause, "Already registered by email");
    assert_eq!(registry.getUserList().len(), 1);
}

#[test]
fn registration_endpoint_rejects_bad_shapes() {
    let mut registry = AccountRegistry::new();

    let mut no_at = sample_request();
    no_at.email = "not-a-mail".to_string();
    let err = api::registration(&mut registry, Some(no_at), SECRET, TTL, NOW).err().unwrap();
    assert_eq!(err.cause.cause, "Wrong mail");

    let mut short_pw = sample_request();
    short_pw.password = "pw".to_string();
    let err = api::registration(&mut registry, Some(short_pw), SECRET, TTL, NOW).err().unwrap();
    assert_eq!(err.cause.cause, "Weak password");

    let mut short_name = sample_request();
    short_name.username = "al".to_string();
    let err = api::registration(&mut registry, Some(short_name), SECRET, TTL, NOW).err().unwrap();
    assert_eq!(err.cause.cause, "Weak login");

    let err = api::registration(&mut registry, None, SECRET, TTL, NOW).err().unwrap();
    assert_eq!(err.cause.cause, "Wrong request");
    assert_eq!(registry.getUserList().len(), 0);
}

#[test]
fn forget_password_endpoint_enforces_the_minimum_length() {
    let mut registry = AccountRegistry::new();
    api::registration(&mut registry, Some(sample_request()), SECRET, TTL, NOW).expect("signup");

    let short = api::forget_password(
        Some(ForgetPasswordRequest {
            email: "a@x.com".to_string(),
            otp: "".to_string(),
            new_password: "abcd".to_string(),
        }),
        &mut registry,
    )
    .err()
    .unwrap();
    assert_eq!(short.status, 400);
    assert_eq!(short.cause.cause, "Weak password");

    let ok = api::forget_password(
        Some(ForgetPasswordRequest {
            email: "a@x.com".to_string(),
            otp: "".to_string(),
            new_password: "abcde".to_string(),
        }),
        &mut registry,
    )
    .expect("a five-character password is accepted");
    assert_eq!(ok.message, "success");

    let missing = api::forget_password(None, &mut registry).err().unwrap();
    assert_eq!(missing.status, 500);
}

#[test]
fn user_management_endpoints_gate_on_the_role() {
    let mut registry = AccountRegistry::new();
    let admin = AuthorizedUser { user_id: 1, user_role: 0 };
    let outsider = AuthorizedUser { user_id: 2, user_role: 9 };
    api::admin_user_create(&admin, Some(sample_request()), &mut registry, SECRET, TTL, NOW)
        .expect("seed an account");
    let id = registry.getUserList()[0].id;

    assert_eq!(api::get_userlist(&outsider, &registry).err().unwrap().status, 401);
    assert_eq!(api::get_userlist(&admin, &registry).unwrap().len(), 1);

    assert_eq!(api::user_allow(&outsider, id, &mut registry).err().unwrap().status, 401);
    assert_eq!(api::user_allow(&admin, id, &mut registry).unwrap().message, "success");

    let patch = UserChangeRequest {
        username: "alice".to_string(),
        password: "".to_string(),
        email: "a@x.com".to_string(),
        first_name: "Alice".to_string(),
        last_name: "Archer".to_string(),
        role: 1,
        allow: true,
    };
    assert_eq!(
        api::user_change(&outsider, id, Some(patch.clone()), &mut registry).err().unwrap().status,
        401
    );
    assert_eq!(
        api::user_change(&admin, id, Some(patch), &mut registry).unwrap().message,
        "success"
    );

    assert_eq!(api::delete_user(&outsider, id, &mut registry).err().unwrap().status, 401);
    assert_eq!(api::delete_user(&admin, id, &mut registry).unwrap().message, "Success");
    assert_eq!(api::delete_user(&admin, id, &mut registry).err().unwrap().status, 400);
}

#[test]
fn userinfo_endpoint_reports_missing_accounts() {
    let mut registry = AccountRegistry::new();
    let caller = AuthorizedUser { user_id: 1, user_role: 0 };
    assert_eq!(api::get_userinfo(&caller, 5, &registry).err().unwrap().status, 400);

    api::admin_user_create(&caller, Some(sample_request()), &mut registry, SECRET, TTL, NOW)
        .expect("seed an account");
    let id = registry.getUserList()[0].id;
    assert_eq!(api::get_userinfo(&caller, id, &registry).unwrap().email, "a@x.com");
}

#[test]
fn feeder_endpoint_acknowledges_both_outcomes() {
    let mut registry = AccountRegistry::new();
    let first = api::feeder(
        &mut registry,
        "root@x.com".to_string(),
        "SuperAdmin".to_string(),
        "root-password".to_string(),
        "Root".to_string(),
        "Admin".to_string(),
    )
    .unwrap();
    assert_eq!(first.message, "Success");

    let second = api::feeder(
        &mut registry,
        "root@x.com".to_string(),
        "SuperAdmin".to_string(),
        "root-password".to_string(),
        "Root".to_string(),
        "Admin".to_string(),
    )
    .unwrap();
    assert_eq!(second.message, "User already registered");
}

#[test]
fn text_validators_check_emptiness_and_bounds() {
    assert!(check_valid_text("hello", 10, 3));
    assert!(!check_valid_text("", 10, 0));
    assert!(!check_valid_text("hi", 10, 3));
    assert!(!check_valid_text("toolongvalue", 10, 3));
    assert!(check_valid_text("abc", 3, 3));

    assert!(check_valid_name("", 10, 3));
    assert!(check_valid_name("Alice", 10, 3));
    assert!(!check_valid_name("Al", 10, 3));
    assert!(!check_valid_name("far-too-long-name", 10, 3));
}

#[test]
fn request_validators_fold_each_field_to_its_outcome() {
    assert!(matches!(check_login_request(None), LoginRequestError::NoneLoginRequest));
    assert!(matches!(
        check_login_request(Some(LoginRequest {
            email: "a@x.com".to_string(),
            password: "secretpw".to_string(),
        })),
        LoginRequestError::Valid(_)
    ));
    assert!(matches!(
        check_login_request(Some(LoginRequest {
            email: "ab".to_string(),
            password: "secretpw".to_string(),
        })),
        LoginRequestError::BadLogin
    ));
    assert!(matches!(
        check_login_request(Some(LoginRequest {
            email: "a@x.com".to_string(),
            password: "pw".to_string(),
        })),
        LoginRequestError::BadPassword
    ));

    assert!(matches!(
        check_registration_request(None),
        RegistrationRequestError::NoneRegistrationRequest
    ));
    assert!(matches!(
        check_registration_request(Some(sample_request())),
        RegistrationRequestError::Valid(_)
    ));

    let mut no_at = sample_request();
    no_at.email = "not-a-mail".to_string();
    assert!(matches!(
        check_registration_request(Some(no_at)),
        RegistrationRequestError::BadMail
    ));
    let mut short_user = sample_request();
    short_user.username = "al".to_string();
    assert!(matches!(
        check_registration_request(Some(short_user)),
        RegistrationRequestError::BadLogin
    ));
    let mut short_pw = sample_request();
    short_pw.password = "pw".to_string();
    assert!(matches!(
        check_registration_request(Some(short_pw)),
        RegistrationRequestError::BadPassword
    ));
}

#[test]
fn catchers_carry_their_fixed_causes() {
    assert_eq!(unauthorized().cause, "Unauthorized");
    assert_eq!(not_found().cause, "Not found");
    assert_eq!(internal_sever_error().cause, "Internal Server Error");
}
