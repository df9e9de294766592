use usermanager::guard::{authorize_request, check_data_from_auth_header};
use usermanager::hashing::{hash_text, verify_password, HASH_COST};
use usermanager::token::{
    decode_jwt, encode_jwt, encode_jwt_at, encode_token_and_refresh, DecodeJwtHelper,
    EncodeJwtHelper,
};

const SECRET: &str = "token-secret";
const NOW: u64 = 1_700_000_000;

#[test]
fn token_round_trip_returns_the_issued_claims() {
    let token = encode_jwt_at(7, 2, SECRET, 3600, NOW);
    match decode_jwt(&token, SECRET, NOW) {
        DecodeJwtHelper::Accepted(claims) => {
            assert_eq!(claims.user_id, 7);
            assert_eq!(claims.role, 2);
            assert_eq!(claims.exp, NOW + 3600);
        }
        DecodeJwtHelper::Rejected => panic!("a freshly issued token must verify"),
    }
}

#[test]
fn token_is_rejected_once_its_ttl_has_elapsed() {
    let token = encode_jwt_at(7, 2, SECRET, 3600, NOW);
    assert!(matches!(decode_jwt(&token, SECRET, NOW + 3600), DecodeJwtHelper::Rejected));
    assert!(matches!(decode_jwt(&token, SECRET, NOW + 3599), DecodeJwtHelper::Accepted(_)));
}

#[test]
fn token_with_wrong_secret_or_garbage_is_rejected() {
    let token = encode_jwt_at(7, 2, SECRET, 3600, NOW);
    assert!(matches!(decode_jwt(&token, "another-secret", NOW), DecodeJwtHelper::Rejected));
    assert!(matches!(decode_jwt("abc", SECRET, NOW), DecodeJwtHelper::Rejected));
    assert!(matches!(decode_jwt("", SECRET, NOW), DecodeJwtHelper::Rejected));
}

#[test]
fn tampered_token_is_rejected() {
    let token = encode_jwt_at(7, 2, SECRET, 3600, NOW);
    let mut tampered = token.clone();
    tampered.pop();
    assert!(matches!(decode_jwt(&tampered, SECRET, NOW), DecodeJwtHelper::Rejected));
}

#[test]
fn encode_jwt_against_the_clock_still_round_trips() {
    match encode_jwt(11, 1, SECRET, 60) {
        EncodeJwtHelper::Accepted(token) => match decode_jwt(&token, SECRET, 0) {
            DecodeJwtHelper::Accepted(claims) => {
                assert_eq!(claims.user_id, 11);
                assert_eq!(claims.role, 1);
            }
            DecodeJwtHelper::Rejected => panic!("fresh token must carry its claims"),
        },
        EncodeJwtHelper::Rejected => panic!("encoding with a sane ttl must succeed"),
    }
}

#[test]
fn encode_token_and_refresh_issues_only_the_access_token() {
    let token = encode_token_and_refresh(3, 1, SECRET, "refresh-secret", 7200, 3600)
        .expect("issuance must succeed");
    assert!(matches!(decode_jwt(&token.token, SECRET, 0), DecodeJwtHelper::Accepted(_)));
    assert!(matches!(decode_jwt(&token.token, "refresh-secret", 0), DecodeJwtHelper::Rejected));
}

#[test]
fn header_parsing_accepts_exactly_bearer_token() {
    let parts = check_data_from_auth_header(Some("Bearer abc")).expect("well-formed header");
    assert_eq!(parts, vec!["Bearer", "abc"]);

    assert!(check_data_from_auth_header(None).is_err());
    assert!(check_data_from_auth_header(Some("Token abc")).is_err());
    assert!(check_data_from_auth_header(Some("Bearer")).is_err());
    assert!(check_data_from_auth_header(Some("Bearer ")).is_err());
    assert!(check_data_from_auth_header(Some("Bearer a b")).is_err());
    assert!(check_data_from_auth_header(Some("bearer abc")).is_err());
}

#[test]
fn guard_accepts_a_live_token_and_yields_its_claims() {
    let token = encode_jwt_at(21, 1, SECRET, 3600, NOW);
    let header = format!("Bearer {}", token);
    let caller = authorize_request(Some(&header), SECRET, NOW).expect("guard must accept");
    assert_eq!(caller.user_id, 21);
    assert_eq!(caller.user_role, 1);
}

#[test]
fn guard_rejects_malformed_headers_and_dead_tokens() {
    assert!(authorize_request(None, SECRET, NOW).is_err());
    assert!(authorize_request(Some("Token abc"), SECRET, NOW).is_err());

    let token = encode_jwt_at(21, 1, SECRET, 3600, NOW);
    let header = format!("Bearer {}", token);
    assert!(authorize_request(Some(&header), SECRET, NOW + 3600).is_err());
    assert!(authorize_request(Some(&header), "another-secret", NOW).is_err());
}

#[test]
fn hashing_round_trips_and_rejects_mismatches() {
    let hash = hash_text("hunter2!".to_string(), HASH_COST).expect("hashing must succeed");
    assert_eq!(hash.len(), 60);
    assert!(hash.starts_with("$2b$"));
    assert_ne!(hash, "hunter2!");
    assert!(verify_password("hunter2!", &hash));
    assert!(!verify_password("hunter3!", &hash));
    assert!(!verify_password("hunter2!", "not-a-bcrypt-hash"));
}

#[test]
fn two_hashes_of_one_password_differ_but_both_verify() {
    let first = hash_text("same-password".to_string(), HASH_COST).unwrap();
    let second = hash_text("same-password".to_string(), HASH_COST).unwrap();
    assert_ne!(first, second);
    assert!(verify_password("same-password", &first));
    assert!(verify_password("same-password", &second));
}

#[test]
fn hash_with_an_unusable_cost_fails() {
    assert!(hash_text("pw".to_string(), 0).is_err());
    assert!(hash_text("pw".to_string(), 32).is_err());
}
