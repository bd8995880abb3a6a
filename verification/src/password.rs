//! One-way salted password hashing and constant-time verification.
//!
//! A stored credential is a self-describing PHC-encoded string: it embeds the
//! algorithm identifier, its parameters and the salt, so verification needs
//! no external state.
use crate::errors::{APIError, APIErrorBuilder};
use argon2::{PasswordHasher, PasswordVerifier};
use vstd::prelude::*;

verus! {

/// Whether `password` verifies against the PHC-encoded credential `hash`:
/// the digest recomputed with the embedded parameters and salt equals the
/// embedded digest. Names the outcome of argon2's password verification,
/// which depends on these two values alone.
pub uninterp spec fn password_matches(password: Seq<char>, hash: Seq<char>) -> bool;

/// Relies on argon2's `PasswordHasher::hash_password`: derives a fresh random
/// salt, applies the memory-hard function and returns the PHC-encoded hash.
/// The password it was derived from verifies against the result; that the
/// digest is reproduced by no other password is the collision resistance of
/// the hash function, taken on trust here.
#[verifier::external_body]
fn argon2_hash(password: &str) -> (r: Option<String>)
    ensures
        match r {
            Some(h) => password_matches(password@, h@) && (forall|p2: Seq<char>|
                p2 != password@ ==> !#[trigger] password_matches(p2, h@)),
            None => true,
        },
{
    match argon2::Argon2::default().hash_password(password.as_bytes()) {
        Ok(h) => Some(h.to_string()),
        Err(_) => None,
    }
}

/// Relies on argon2's `PasswordVerifier::verify_password`: recomputes the
/// digest using the parameters and salt embedded in the encoded credential
/// and compares it against the embedded digest in constant time, without
/// short-circuiting on a first mismatched byte. An undecodable credential
/// verifies nothing.
#[verifier::external_body]
pub fn verify_password(password: &str, hash: &str) -> (r: bool)
    ensures
        r == password_matches(password@, hash@),
{
    let parsed = match argon2::PasswordHash::new(hash) {
        Ok(p) => p,
        Err(_) => return false,
    };
    argon2::Argon2::default().verify_password(password.as_bytes(), &parsed).is_ok()
}

/// Hash a password into a fresh salted PHC-encoded credential.
///
/// On success, the given password, and no other, verifies against the
/// returned credential. Fails only when the hashing function itself fails
/// (resource exhaustion), surfaced as an unknown server error.
pub fn hash_password(password: &str) -> (r: Result<String, APIError>)
    ensures
        match r {
            Ok(h) => password_matches(password@, h@) && (forall|p2: Seq<char>|
                p2 != password@ ==> !#[trigger] password_matches(p2, h@)),
            Err(e) => e.status == 500,
        },
{
    match argon2_hash(password) {
        Some(h) => Ok(h),
        None => Err(APIErrorBuilder::from_error("failed to hash password").build()),
    }
}

/// A fixed, well-formed PHC-encoded credential with the default cost
/// parameters and an all-zero salt and digest. No password verifies against
/// it: it exists so that the absent-credential branch of `check_password`
/// performs the full digest recomputation that the present-credential
/// branch performs.
const DUMMY_CREDENTIAL: &'static str = "$argon2id$v=19$m=19456,t=2,p=1$AAAAAAAAAAAAAAAAAAAAAA$AAAAAAAAAAAAAAAAAAAAAAAAAAAAAAAAAAAAAAAAAAA";

/// Decide a login attempt against the identity lookup's outcome.
///
/// When the lookup found no credential, the supplied password is still
/// verified against a fixed dummy credential with the standard cost
/// parameters — an explicit branch, not an early return — so that the
/// "unknown email" path does the same digest work as the "wrong password"
/// path and neither outcome leaks which one occurred.
pub fn check_password(password: &str, stored_hash: Option<&str>) -> (r: bool)
    ensures
        r == match stored_hash {
            Some(h) => password_matches(password@, h@),
            None => false,
        },
{
    match stored_hash {
        Some(h) => verify_password(password, h),
        None => {
            let _ = verify_password(password, DUMMY_CREDENTIAL);
            false
        },
    }
}

} // verus!
