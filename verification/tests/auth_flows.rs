use usermanager::errors::{AllowError, FeederError, LoginError, RegistrationError};
use usermanager::models::{LoginRequest, RegistrationRequest, UserChangeRequest};
use usermanager::registry::{find_user_by_email_username, AccountRegistry};
use usermanager::errors::FindUserBy;

const SECRET: &str = "test-signing-secret";
const TTL: u64 = 3600;
const NOW: u64 = 1_700_000_000;

fn sample_request() -> RegistrationRequest {
    RegistrationRequest {
        email: "a@x.com".to_string(),
        username: "alice".to_string(),
        first_name: "Alice".to_string(),
        last_name: "Archer".to_string(),
        password: "secretpw".to_string(),
        role: 1,
    }
}

#[test]
fn happy_registration_creates_unapproved_account() {
    let mut registry = AccountRegistry::new();
    let outcome = registry.registration(&sample_request(), SECRET, TTL, NOW);
    assert!(matches!(outcome, RegistrationError::Registered(_)));

    let users = registry.getUserList();
    assert_eq!(users.len(), 1);
    assert_eq!(users[0].email, "a@x.com");
    assert_eq!(users[0].username, "alice");
    assert_eq!(users[0].role, 1);
    assert!(!users[0].allow);
    assert_ne!(users[0].password, "secretpw");
    assert_eq!(users[0].password.len(), 60);

    let login = registry.login(
        &LoginRequest { email: "a@x.com".to_string(), password: "secretpw".to_string() },
        SECRET,
        TTL,
        NOW,
    );
    assert!(matches!(login, LoginError::NotPermit));
}

#[test]
fn duplicate_email_wins_over_fresh_username() {
    let mut registry = AccountRegistry::new();
    let first = registry.registration(&sample_request(), SECRET, TTL, NOW);
    assert!(matches!(first, RegistrationError::Registered(_)));

    let mut second = sample_request();
    second.username = "someone-else".to_string();
    let outcome = registry.registration(&second, SECRET, TTL, NOW);
    assert!(matches!(outcome, RegistrationError::AlreadyRegisteredByEmail));
    assert_eq!(registry.getUserList().len(), 1);
}

#[test]
fn duplicate_email_wins_even_when_username_also_taken() {
    let mut registry = AccountRegistry::new();
    assert!(matches!(
        registry.registration(&sample_request(), SECRET, TTL, NOW),
        RegistrationError::Registered(_)
    ));
    let outcome = registry.registration(&sample_request(), SECRET, TTL, NOW);
    assert!(matches!(outcome, RegistrationError::AlreadyRegisteredByEmail));
}

#[test]
fn duplicate_username_with_fresh_email_is_reported() {
    let mut registry = AccountRegistry::new();
    assert!(matches!(
        registry.registration(&sample_request(), SECRET, TTL, NOW),
        RegistrationError::Registered(_)
    ));
    let mut second = sample_request();
    second.email = "b@x.com".to_string();
    let outcome = registry.registration(&second, SECRET, TTL, NOW);
    assert!(matches!(outcome, RegistrationError::AlreadyRegisteredByUsername));
    assert_eq!(registry.getUserList().len(), 1);
}

#[test]
fn admin_created_account_is_pre_activated() {
    let mut registry = AccountRegistry::new();
    let outcome = registry.admin_user_registration(&sample_request(), SECRET, TTL, NOW);
    assert!(matches!(outcome, RegistrationError::Registered(_)));

    let users = registry.getUserList();
    assert_eq!(users.len(), 1);
    assert!(users[0].allow);

    let login = registry.login(
        &LoginRequest { email: "a@x.com".to_string(), password: "secretpw".to_string() },
        SECRET,
        TTL,
        NOW,
    );
    match login {
        LoginError::Accepted(resp) => {
            assert_eq!(resp.userID, users[0].id);
            assert_eq!(resp.role, 1);
            assert!(!resp.token.token.is_empty());
        }
        _ => panic!("expected a token for an approved account"),
    }
}

#[test]
fn login_pipeline_orders_its_failures() {
    let mut registry = AccountRegistry::new();
    assert!(matches!(
        registry.admin_user_registration(&sample_request(), SECRET, TTL, NOW),
        RegistrationError::Registered(_)
    ));

    let unknown = registry.login(
        &LoginRequest { email: "nobody@x.com".to_string(), password: "secretpw".to_string() },
        SECRET,
        TTL,
        NOW,
    );
    assert!(matches!(unknown, LoginError::WrongLogin));

    let wrong = registry.login(
        &LoginRequest { email: "a@x.com".to_string(), password: "not-the-one".to_string() },
        SECRET,
        TTL,
        NOW,
    );
    assert!(matches!(wrong, LoginError::WrongPassword));
}

#[test]
fn reset_revokes_trust() {
    let mut registry = AccountRegistry::new();
    assert!(matches!(
        registry.admin_user_registration(&sample_request(), SECRET, TTL, NOW),
        RegistrationError::Registered(_)
    ));
    assert!(matches!(
        registry.login(
            &LoginRequest { email: "a@x.com".to_string(), password: "secretpw".to_string() },
            SECRET,
            TTL,
            NOW,
        ),
        LoginError::Accepted(_)
    ));

    let reset = registry.forget_password("a@x.com".to_string(), "fresh-password".to_string());
    assert!(matches!(reset, AllowError::Done));

    let new_login = registry.login(
        &LoginRequest { email: "a@x.com".to_string(), password: "fresh-password".to_string() },
        SECRET,
        TTL,
        NOW,
    );
    assert!(matches!(new_login, LoginError::NotPermit));

    let old_login = registry.login(
        &LoginRequest { email: "a@x.com".to_string(), password: "secretpw".to_string() },
        SECRET,
        TTL,
        NOW,
    );
    assert!(matches!(old_login, LoginError::WrongPassword));
}

#[test]
fn reset_for_unknown_email_reports_not_found() {
    let mut registry = AccountRegistry::new();
    let reset = registry.forget_password("ghost@x.com".to_string(), "whatever-pw".to_string());
    assert!(matches!(reset, AllowError::UserNotFound));
}

#[test]
fn approval_unlocks_login() {
    let mut registry = AccountRegistry::new();
    assert!(matches!(
        registry.registration(&sample_request(), SECRET, TTL, NOW),
        RegistrationError::Registered(_)
    ));
    let id = registry.getUserList()[0].id;

    assert!(matches!(registry.allow_user(id), AllowError::Done));
    let login = registry.login(
        &LoginRequest { email: "a@x.com".to_string(), password: "secretpw".to_string() },
        SECRET,
        TTL,
        NOW,
    );
    assert!(matches!(login, LoginError::Accepted(_)));
}

#[test]
fn approving_a_missing_account_reports_not_found() {
    let mut registry = AccountRegistry::new();
    assert!(matches!(registry.allow_user(41), AllowError::UserNotFound));
}

#[test]
fn delete_removes_the_account_for_good() {
    let mut registry = AccountRegistry::new();
    assert!(matches!(
        registry.registration(&sample_request(), SECRET, TTL, NOW),
        RegistrationError::Registered(_)
    ));
    let id = registry.getUserList()[0].id;

    assert!(matches!(registry.delete_user(id), AllowError::Done));
    assert!(registry.get_userinfo(id).is_none());
    assert_eq!(registry.getUserList().len(), 0);
    assert!(matches!(registry.delete_user(id), AllowError::UserNotFound));
}

#[test]
fn change_user_rewrites_profile_and_keeps_password_when_patch_has_none() {
    let mut registry = AccountRegistry::new();
    assert!(matches!(
        registry.admin_user_registration(&sample_request(), SECRET, TTL, NOW),
        RegistrationError::Registered(_)
    ));
    let id = registry.getUserList()[0].id;

    let patch = UserChangeRequest {
        username: "alicia".to_string(),
        password: "".to_string(),
        email: "alicia@x.com".to_string(),
        first_name: "Alicia".to_string(),
        last_name: "Archer".to_string(),
        role: 2,
        allow: true,
    };
    assert!(matches!(registry.change_user(id, Some(patch)), AllowError::Done));

    let user = registry.get_userinfo(id).expect("account should still exist");
    assert_eq!(user.username, "alicia");
    assert_eq!(user.email, "alicia@x.com");
    assert_eq!(user.role, 2);

    let login = registry.login(
        &LoginRequest { email: "alicia@x.com".to_string(), password: "secretpw".to_string() },
        SECRET,
        TTL,
        NOW,
    );
    assert!(matches!(login, LoginError::Accepted(_)));
}

#[test]
fn change_user_with_password_rehashes_it() {
    let mut registry = AccountRegistry::new();
    assert!(matches!(
        registry.admin_user_registration(&sample_request(), SECRET, TTL, NOW),
        RegistrationError::Registered(_)
    ));
    let id = registry.getUserList()[0].id;

    let patch = UserChangeRequest {
        username: "alice".to_string(),
        password: "rotated-pw".to_string(),
        email: "a@x.com".to_string(),
        first_name: "Alice".to_string(),
        last_name: "Archer".to_string(),
        role: 1,
        allow: true,
    };
    assert!(matches!(registry.change_user(id, Some(patch)), AllowError::Done));

    let login = registry.login(
        &LoginRequest { email: "a@x.com".to_string(), password: "rotated-pw".to_string() },
        SECRET,
        TTL,
        NOW,
    );
    assert!(matches!(login, LoginError::Accepted(_)));
}

#[test]
fn change_user_refuses_a_colliding_patch() {
    let mut registry = AccountRegistry::new();
    assert!(matches!(
        registry.admin_user_registration(&sample_request(), SECRET, TTL, NOW),
        RegistrationError::Registered(_)
    ));
    let mut second = sample_request();
    second.email = "b@x.com".to_string();
    second.username = "bob".to_string();
    assert!(matches!(
        registry.admin_user_registration(&second, SECRET, TTL, NOW),
        RegistrationError::Registered(_)
    ));
    let bob_id = registry.getUserList()[1].id;

    let patch = UserChangeRequest {
        username: "alice".to_string(),
        password: "".to_string(),
        email: "bob-new@x.com".to_string(),
        first_name: "Bob".to_string(),
        last_name: "Builder".to_string(),
        role: 1,
        allow: true,
    };
    assert!(matches!(registry.change_user(bob_id, Some(patch)), AllowError::UserNotFound));
    assert_eq!(registry.get_userinfo(bob_id).unwrap().username, "bob");
}

#[test]
fn change_user_without_a_patch_reports_not_found() {
    let mut registry = AccountRegistry::new();
    assert!(matches!(registry.change_user(3, None), AllowError::UserNotFound));
}

#[test]
fn feeder_seeds_super_admin_once() {
    let mut registry = AccountRegistry::new();
    let seeded = registry.feeder(
        "root@x.com".to_string(),
        "SuperAdmin".to_string(),
        "root-password".to_string(),
        "Root".to_string(),
        "Admin".to_string(),
    );
    match seeded {
        FeederError::Seeded(message) => assert_eq!(message, "Success"),
        _ => panic!("expected the super-admin to be created"),
    }

    let users = registry.getUserList();
    assert_eq!(users.len(), 1);
    assert_eq!(users[0].role, 0);
    assert!(users[0].allow);

    let again = registry.feeder(
        "root@x.com".to_string(),
        "SuperAdmin".to_string(),
        "root-password".to_string(),
        "Root".to_string(),
        "Admin".to_string(),
    );
    assert!(matches!(again, FeederError::AlreadyRegisteredByEmail));
    assert_eq!(registry.getUserList().len(), 1);

    let login = registry.login(
        &LoginRequest { email: "root@x.com".to_string(), password: "root-password".to_string() },
        SECRET,
        TTL,
        NOW,
    );
    assert!(matches!(login, LoginError::Accepted(_)));
}

#[test]
fn feeder_reports_a_taken_username_under_a_fresh_email() {
    let mut registry = AccountRegistry::new();
    assert!(matches!(
        registry.feeder(
            "root@x.com".to_string(),
            "SuperAdmin".to_string(),
            "root-password".to_string(),
            "Root".to_string(),
            "Admin".to_string(),
        ),
        FeederError::Seeded(_)
    ));
    let again = registry.feeder(
        "other@x.com".to_string(),
        "SuperAdmin".to_string(),
        "root-password".to_string(),
        "Root".to_string(),
        "Admin".to_string(),
    );
    assert!(matches!(again, FeederError::AlreadyRegisteredByUsername));
    assert_eq!(registry.getUserList().len(), 1);
}

#[test]
fn uniqueness_resolution_checks_email_before_username() {
    let mut registry = AccountRegistry::new();
    assert!(matches!(
        registry.registration(&sample_request(), SECRET, TTL, NOW),
        RegistrationError::Registered(_)
    ));

    assert!(matches!(
        find_user_by_email_username(&registry, "a@x.com", "alice"),
        FindUserBy::UserFoundByEmail
    ));
    assert!(matches!(
        find_user_by_email_username(&registry, "fresh@x.com", "alice"),
        FindUserBy::UserFoundByUsername
    ));
    assert!(matches!(
        find_user_by_email_username(&registry, "fresh@x.com", "fresh"),
        FindUserBy::UserNotFound
    ));
}

#[test]
fn find_user_by_resolves_known_fields_only() {
    let mut registry = AccountRegistry::new();
    assert!(matches!(
        registry.registration(&sample_request(), SECRET, TTL, NOW),
        RegistrationError::Registered(_)
    ));

    assert!(registry.find_user_by("email", "a@x.com").is_some());
    assert!(registry.find_user_by("username", "alice").is_some());
    assert!(registry.find_user_by("email", "b@x.com").is_none());
    assert!(registry.find_user_by("first_name", "Alice").is_none());
}
