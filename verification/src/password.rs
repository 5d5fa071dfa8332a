//! Password hashing and checking. The hashing itself is argon2's work; the
//! core relies on the round trip: a freshly produced hash string parses back
//! and verifies against the password it was made from.

use argon2::password_hash::PasswordHasher;
use argon2::password_hash::PasswordVerifier;

use vstd::prelude::*;

verus! {

/// Whether a stored hash string is well-formed (the PHC string format):
/// what password-hash's `PasswordHash::new` accepts. A function of the
/// string alone.
pub uninterp spec fn argon2_wf(hash: Seq<char>) -> bool;

/// Whether a password matches a stored hash: what argon2's `verify_password`
/// reports. Salt and parameters travel inside the hash string, so this is a
/// function of the two strings alone.
pub uninterp spec fn argon2_matches(hash: Seq<char>, password: Seq<char>) -> bool;

/// Relies on argon2's `hash_password` with a fresh salt from the thread rng:
/// the returned PHC string parses back (`PasswordHash::new`) and verifies
/// against the password it was made from (`verify_password`). The call can
/// refuse — a password over the algorithm's 32-bit length cap, for one — so
/// success is not promised; callers report the refusal as an internal error.
#[verifier::external_body]
pub(crate) fn hash_password(password: &str) -> (r: Option<String>)
    ensures
        r matches Some(h) ==> argon2_wf(h@) && argon2_matches(h@, password@),
{
    let salt = argon2::password_hash::SaltString::generate(&mut rand::thread_rng());
    match argon2::Argon2::default().hash_password(password.as_bytes(), &salt) {
        Ok(h) => Some(h.to_string()),
        Err(_) => None,
    }
}

/// Relies on password-hash's `PasswordHash::new` and argon2's
/// `verify_password`: parses the stored hash and reports whether the password
/// matches it; a malformed hash is reported as `None`.
#[verifier::external_body]
pub(crate) fn password_matches(hash: &str, password: &str) -> (r: Option<bool>)
    ensures
        r is Some <==> argon2_wf(hash@),
        r matches Some(b) ==> b == argon2_matches(hash@, password@),
{
    let parsed = match argon2::password_hash::PasswordHash::new(hash) {
        Ok(p) => p,
        Err(_) => {
            return None;
        },
    };
    Some(argon2::Argon2::default().verify_password(password.as_bytes(), &parsed).is_ok())
}

} // verus!
