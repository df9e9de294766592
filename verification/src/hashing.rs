//! One-way credential hashing and verification, backed by bcrypt.
//!
//! `verify` is a pure function of the plaintext and the stored hash, so its
//! outcome gets a name, `bcrypt_verifies`, that the rest of the library's
//! contracts speak of. A hash embeds a randomly drawn salt, so the hash
//! string itself cannot be named; what every outcome satisfies is that it is
//! 60 characters long and verifies against the plaintext it was made from.

use vstd::prelude::*;

verus! {

/// The cost factor every credential in this system is hashed with.
pub const HASH_COST: u32 = 4;

/// What `bcrypt::verify(plain, hashed)` resolves to, with a mismatch and a
/// malformed stored hash both folded to `false`.
pub uninterp spec fn bcrypt_verifies(plain: Seq<char>, hashed: Seq<char>) -> bool;

/// The shape of every string bcrypt's hasher returns: exactly 60 characters,
/// opening with the `$2b$` version prefix. A stored credential of this shape
/// is a derived hash, not the plaintext it was derived from (any plaintext of
/// another length or opening differs from its hash outright).
pub open spec fn is_bcrypt_hash(s: Seq<char>) -> bool {
    s.len() == 60 && s.subrange(0, 4) == "$2b$"@
}

/// Hash a credential.
///
/// Relies on `bcrypt::hash`: it fails only for a cost outside 4..=31 or when
/// the operating system's randomness is unavailable, and on success returns
/// the 60-character hash string `$2b$<cost>$<salt><hash>` — so it always
/// starts with the version prefix `$2b$` — which `bcrypt::verify` accepts
/// against the plaintext it was derived from.
#[verifier::external_body]
pub fn hash_text(text: String, cost: u32) -> (r: Result<String, ()>)
    ensures
        r matches Ok(h) ==> is_bcrypt_hash(h@) && bcrypt_verifies(text@, h@),
        !(4 <= cost <= 31) ==> r is Err,
{
    match bcrypt::hash(text, cost) {
        Ok(hash) => Ok(hash),
        Err(_) => Err(()),
    }
}

/// Check a credential against a stored hash; never fails, a mismatch and a
/// malformed hash both come back as `false`.
///
/// Relies on `bcrypt::verify`: it re-derives the hash from the plaintext and
/// the cost and salt carried inside `hashed`, so its outcome depends on the
/// two arguments alone.
#[verifier::external_body]
pub fn verify_password(plain: &str, hashed: &str) -> (r: bool)
    ensures
        r == bcrypt_verifies(plain@, hashed@),
{
    match bcrypt::verify(plain, hashed) {
        Ok(matched) => matched,
        Err(_) => false,
    }
}

} // verus!
