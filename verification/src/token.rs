//! Signed session tokens: issuance and validation of short-lived claims,
//! backed by jsonwebtoken's HS256 scheme.
//!
//! Both the encoder and the decoder are pure functions of their arguments,
//! so each gets a name: `token_of` for the signed string a claim set yields,
//! and `jwt_claims_of` for the claim set a string yields back. Expiry is
//! checked here in verified code against a caller-supplied clock reading, so
//! that validity is exactly "intact signature and `now < exp`".

use vstd::prelude::*;
use crate::models::Token;

verus! {

/// The signed, base64-encoded token that HS256 produces for the given
/// claims under the given secret.
pub uninterp spec fn token_of(user_id: u64, role: i32, exp: u64, secret: Seq<char>) -> Seq<char>;

/// The claims a token string yields under a secret: what the decoder,
/// configured as `jwt_parse` configures it, hands back — `Some` of the three
/// claims for the strings it accepts (among them every token this module
/// signs), `None` for all it refuses.
pub uninterp spec fn jwt_claims_of(token: Seq<char>, secret: Seq<char>) -> Option<(u64, i32, u64)>;

/// The session claims carried inside a token.
#[derive(Clone, Copy, PartialEq, Eq, Structural, Debug)]
pub struct Claims {
    pub user_id: u64,
    pub role: i32,
    pub exp: u64,
}

/// Outcome of signing a claim set.
pub enum EncodeJwtHelper {
    Accepted(String),
    Rejected,
}

/// Outcome of validating a presented token string.
pub enum DecodeJwtHelper {
    Accepted(Claims),
    Rejected,
}

/// Sign the claims `{user_id, role, exp}` under `secret`.
///
/// Relies on `jsonwebtoken::encode` with the default HS256 header and a key
/// from `EncodingKey::from_secret`: the HMAC backend accepts a key of any
/// length and serializing the claims map cannot fail, so encoding always
/// succeeds; the result is determined by the claims and the secret; and
/// `jsonwebtoken::decode` under the same secret yields these claims back.
#[verifier::external_body]
fn jwt_sign(user_id: u64, role: i32, exp: u64, secret: &str) -> (r: String)
    ensures
        r@ == token_of(user_id, role, exp, secret@),
        jwt_claims_of(r@, secret@) == Some((user_id, role, exp)),
{
    let mut claims = serde_json::Map::new();
    claims.insert("user_id".to_string(), serde_json::Value::String(user_id.to_string()));
    claims.insert("role".to_string(), serde_json::Value::from(role));
    claims.insert("exp".to_string(), serde_json::Value::from(exp));
    let key = jsonwebtoken::EncodingKey::from_secret(secret.as_bytes());
    jsonwebtoken::encode(&jsonwebtoken::Header::default(), &serde_json::Value::Object(claims), &key)
        .expect("HS256 encoding with a secret key cannot fail")
}

/// Validate a token string's structure and signature and give back its
/// claims; expiry is deliberately not checked here.
///
/// Relies on `jsonwebtoken::decode` with HS256 and expiry validation turned
/// off: it accepts exactly the well-formed tokens signed under this secret,
/// and hands back the claims they carry, so the outcome depends on the token
/// and the secret alone.
#[verifier::external_body]
fn jwt_parse(token: &str, secret: &str) -> (r: Option<(u64, i32, u64)>)
    ensures
        r == jwt_claims_of(token@, secret@),
{
    let key = jsonwebtoken::DecodingKey::from_secret(secret.as_bytes());
    let mut validation = jsonwebtoken::Validation::new(jsonwebtoken::Algorithm::HS256);
    validation.validate_exp = false;
    validation.required_spec_claims.clear();
    let data = jsonwebtoken::decode::<serde_json::Value>(token, &key, &validation).ok()?;
    let user_id = data.claims.get("user_id")?.as_str()?.parse::<u64>().ok()?;
    let role = i32::try_from(data.claims.get("role")?.as_i64()?).ok()?;
    let exp = data.claims.get("exp")?.as_u64()?;
    Some((user_id, role, exp))
}

/// The current unix time in whole seconds.
///
/// Relies on `chrono::Utc::now`: a reading of the system clock, of which
/// nothing is promised. On a clock set before 1970 `Utc::now` itself panics,
/// an environmental condition outside any input of this library.
#[verifier::external_body]
fn now_unix() -> (r: u64)
{
    u64::try_from(chrono::Utc::now().timestamp()).unwrap_or(0)
}

/// Whether a presented token is valid at time `now` under `secret`: intact,
/// signed with this secret, and not yet expired.
pub open spec fn token_live(token: Seq<char>, secret: Seq<char>, now: u64) -> bool {
    match jwt_claims_of(token, secret) {
        Some((user_id, role, exp)) => now < exp,
        None => false,
    }
}

/// Issue a token expiring `expiration` seconds after the clock reading `now`.
pub fn encode_jwt_at(id: u64, role: i32, secret: &str, expiration: u64, now: u64) -> (r: String)
    requires
        now + expiration <= u64::MAX,
    ensures
        r@ == token_of(id, role, (now + expiration) as u64, secret@),
        jwt_claims_of(r@, secret@) == Some((id, role, (now + expiration) as u64)),
{
    jwt_sign(id, role, now + expiration, secret)
}

/// What issuing against a clock reading of `now` yields: a token carrying
/// the claims with expiry `now + expiration` where that sum fits, and a
/// rejection where it does not.
pub open spec fn issue_outcome_at(
    r: EncodeJwtHelper,
    id: u64,
    role: i32,
    expiration: u64,
    secret: Seq<char>,
    now: u64,
) -> bool {
    if expiration <= u64::MAX - now {
        r matches EncodeJwtHelper::Accepted(t) && jwt_claims_of(t@, secret) == Some(
            (id, role, (now + expiration) as u64),
        )
    } else {
        r is Rejected
    }
}

/// Issue a token expiring `expiration` seconds from the current clock
/// reading: some reading was taken, and the outcome is the one that reading
/// determines — rejected only when the expiry would not fit the clock's
/// range, so a zero expiry always succeeds.
pub fn encode_jwt(id: u64, role: i32, secret: &str, expiration: u64) -> (r: EncodeJwtHelper)
    ensures
        exists|now: u64| issue_outcome_at(r, id, role, expiration, secret@, now),
        r matches EncodeJwtHelper::Accepted(t) ==> exists|exp: u64|
            jwt_claims_of(t@, secret@) == Some((id, role, exp)),
        expiration == 0 ==> r is Accepted,
{
    let now = now_unix();
    if expiration <= u64::MAX - now {
        let token = encode_jwt_at(id, role, secret, expiration, now);
        let r = EncodeJwtHelper::Accepted(token);
        proof {
            assert(issue_outcome_at(r, id, role, expiration, secret@, now));
        }
        r
    } else {
        let r = EncodeJwtHelper::Rejected;
        proof {
            assert(issue_outcome_at(r, id, role, expiration, secret@, now));
        }
        r
    }
}

/// Validate a presented token at time `now`: accepted, with its claims,
/// exactly when the signature is intact and the token is not yet expired;
/// a bad signature, a malformed token and an expired one are rejected alike.
pub fn decode_jwt(token: &str, secret: &str, now: u64) -> (r: DecodeJwtHelper)
    ensures
        (r is Accepted) == token_live(token@, secret@, now),
        r matches DecodeJwtHelper::Accepted(c) ==> jwt_claims_of(token@, secret@) == Some(
            (c.user_id, c.role, c.exp),
        ) && now < c.exp,
{
    match jwt_parse(token, secret) {
        Some((user_id, role, exp)) => {
            if now < exp {
                DecodeJwtHelper::Accepted(Claims { user_id, role, exp })
            } else {
                DecodeJwtHelper::Rejected
            }
        },
        None => DecodeJwtHelper::Rejected,
    }
}

/// What `encode_token_and_refresh` yields against a clock reading of `now`:
/// the issued access token where the expiry fits, an error where it does not.
pub open spec fn token_outcome_at(
    r: Result<Token, ()>,
    id: u64,
    role: i32,
    expiration: u64,
    secret: Seq<char>,
    now: u64,
) -> bool {
    if expiration <= u64::MAX - now {
        r matches Ok(t) && jwt_claims_of(t.token@, secret) == Some(
            (id, role, (now + expiration) as u64),
        )
    } else {
        r is Err
    }
}

/// Issue the access token for a freshly authenticated account: some clock
/// reading was taken, and the outcome is the one it determines — an error
/// only when the expiry would not fit the clock's range, so a zero expiry
/// always succeeds. The refresh secret and expiry are accepted for
/// configuration compatibility but no refresh token is issued or consumed
/// anywhere in this system.
pub fn encode_token_and_refresh(
    id: u64,
    role: i32,
    jwt_secret: &str,
    refresh_token_secret: &str,
    expiration_refresh_token: u64,
    expiration_token: u64,
) -> (r: Result<Token, ()>)
    ensures
        exists|now: u64| token_outcome_at(r, id, role, expiration_token, jwt_secret@, now),
        r matches Ok(t) ==> exists|exp: u64|
            jwt_claims_of(t.token@, jwt_secret@) == Some((id, role, exp)),
        expiration_token == 0 ==> r is Ok,
{
    let helper = encode_jwt(id, role, jwt_secret, expiration_token);
    let r = match helper {
        EncodeJwtHelper::Accepted(token) => Ok(Token { token }),
        EncodeJwtHelper::Rejected => Err(()),
    };
    proof {
        let now = choose|now: u64|
            issue_outcome_at(helper, id, role, expiration_token, jwt_secret@, now);
        assert(token_outcome_at(r, id, role, expiration_token, jwt_secret@, now));
    }
    r
}

/// Law: a token carrying a given claim set round-trips. Before its expiry it
/// is accepted with exactly the identity and role it was issued with; from
/// its expiry on it is rejected.
pub proof fn lemma_token_round_trip(
    token: Seq<char>,
    secret: Seq<char>,
    id: u64,
    role: i32,
    exp: u64,
    now: u64,
)
    requires
        jwt_claims_of(token, secret) == Some((id, role, exp)),
    ensures
        token_live(token, secret, now) <==> now < exp,
        now < exp ==> (jwt_claims_of(token, secret) matches Some(c) && c.0 == id && c.1 == role),
{
}

} // verus!
