//! The per-request boundary check: extract the bearer token from the
//! authorization header, validate it, and yield the caller's identity and
//! role — or reject. Every cause of rejection (missing header, wrong scheme,
//! bad signature, malformed token, expiry) collapses into the one rejected
//! outcome, so a caller cannot tell which check failed.

use vstd::prelude::*;
use vstd::string::*;
use crate::token::{decode_jwt, jwt_claims_of, token_live, DecodeJwtHelper};

verus! {

/// The caller identity a request carries once its token has been accepted:
/// sourced entirely from the token's claims, with no fresh store lookup, so
/// a role change after issuance is not reflected until re-login.
pub struct AuthorizedUser {
    pub user_id: u64,
    pub user_role: i32,
}

/// The token a well-formed authorization header carries: the header must be
/// exactly `Bearer <token>` — the scheme word, one space, and a non-empty
/// token with no further space.
pub open spec fn spec_header_token(header: Seq<char>) -> Option<Seq<char>> {
    if header.len() >= 8 && header.subrange(0, 6) == "Bearer"@ && header[6] == ' '
        && (forall|i: int| 7 <= i < header.len() ==> header[i] != ' ') {
        Some(header.subrange(7, header.len() as int))
    } else {
        None
    }
}

/// Split a presented authorization header into its scheme and its token,
/// accepting exactly the `Bearer <token>` shape; everything else — absence
/// included — is rejected.
pub fn check_data_from_auth_header<'a>(auth_header: Option<&'a str>) -> (r: Result<
    Vec<&'a str>,
    (),
>)
    ensures
        auth_header is None ==> r is Err,
        auth_header matches Some(h) ==> ((r is Ok) == (spec_header_token(h@) is Some)),
        r matches Ok(v) ==> (auth_header matches Some(h) && v@.len() == 2 && v@[0]@ == "Bearer"@
            && Some(v@[1]@) == spec_header_token(h@)),
{
    proof {
        reveal_strlit("Bearer");
    }
    match auth_header {
        None => Err(()),
        Some(auth_string) => {
            let len = auth_string.unicode_len();
            if len < 8 {
                return Err(());
            }
            if !(auth_string.get_char(0) == 'B' && auth_string.get_char(1) == 'e'
                && auth_string.get_char(2) == 'a' && auth_string.get_char(3) == 'r'
                && auth_string.get_char(4) == 'e' && auth_string.get_char(5) == 'r'
                && auth_string.get_char(6) == ' ') {
                proof {
                    assert(auth_string@.subrange(0, 6) == "Bearer"@ && auth_string@[6] == ' '
                        ==> auth_string@[0] == 'B' && auth_string@[1] == 'e' && auth_string@[2]
                        == 'a' && auth_string@[3] == 'r' && auth_string@[4] == 'e'
                        && auth_string@[5] == 'r' && auth_string@[6] == ' ') by {
                        if auth_string@.subrange(0, 6) == "Bearer"@ {
                            assert(auth_string@.subrange(0, 6)[0] == "Bearer"@[0]);
                            assert(auth_string@.subrange(0, 6)[1] == "Bearer"@[1]);
                            assert(auth_string@.subrange(0, 6)[2] == "Bearer"@[2]);
                            assert(auth_string@.subrange(0, 6)[3] == "Bearer"@[3]);
                            assert(auth_string@.subrange(0, 6)[4] == "Bearer"@[4]);
                            assert(auth_string@.subrange(0, 6)[5] == "Bearer"@[5]);
                        }
                    }
                }
                return Err(());
            }
            proof {
                assert(auth_string@.subrange(0, 6) =~= "Bearer"@);
            }
            let mut i: usize = 7;
            while i < len
                invariant
                    auth_header == Some(auth_string),
                    7 <= i <= len,
                    len == auth_string@.len(),
                    forall|j: int| 7 <= j < i ==> auth_string@[j] != ' ',
                decreases len - i,
            {
                if auth_string.get_char(i) == ' ' {
                    proof {
                        assert(spec_header_token(auth_string@) is None) by {
                            assert(auth_string@[i as int] == ' ');
                            assert(!(forall|j: int|
                                7 <= j < auth_string@.len() ==> auth_string@[j] != ' '));
                        }
                    }
                    return Err(());
                }
                i += 1;
            }
            let scheme = auth_string.substring_char(0, 6);
            let token = auth_string.substring_char(7, len);
            proof {
                assert(scheme@ =~= "Bearer"@);
            }
            Ok(vec![scheme, token])
        },
    }
}

/// Whether the guard accepts a presented header at time `now` under
/// `secret`: the header is well-formed and its token is live.
pub open spec fn guard_accepts(header: Option<Seq<char>>, secret: Seq<char>, now: u64) -> bool {
    match header {
        Some(h) => match spec_header_token(h) {
            Some(token) => token_live(token, secret, now),
            None => false,
        },
        None => false,
    }
}

/// Authenticate a request from its authorization header: accepted exactly
/// when the header is `Bearer <token>` and the token's signature is intact
/// and its expiry has not passed at `now`; the yielded identity and role
/// are the token's claims.
pub fn authorize_request(auth_header: Option<&str>, secret: &str, now: u64) -> (r: Result<
    AuthorizedUser,
    (),
>)
    ensures
        (r is Ok) == guard_accepts(
            match auth_header {
                Some(h) => Some(h@),
                None => None,
            },
            secret@,
            now,
        ),
        r matches Ok(a) ==> (auth_header matches Some(h) && spec_header_token(h@) matches Some(
            token,
        ) && jwt_claims_of(token, secret@) matches Some(c) && a.user_id == c.0 && a.user_role
            == c.1 && now < c.2),
    {
    match check_data_from_auth_header(auth_header) {
        Ok(vec_header) => {
            let token = vec_header[1];
            match decode_jwt(token, secret, now) {
                DecodeJwtHelper::Accepted(claims) => Ok(
                    AuthorizedUser { user_id: claims.user_id, user_role: claims.role },
                ),
                DecodeJwtHelper::Rejected => Err(()),
            }
        },
        Err(()) => Err(()),
    }
}

} // verus!
