//! Salted password hashing and verification.
//!
//! `hash` embeds a freshly generated random salt in its output, so two
//! calls on the same password yield different digests; `verify` re-derives
//! from the salt embedded in the digest and compares in constant time,
//! returning `false` (never failing) on a malformed digest.

use vstd::prelude::*;
use crate::models::UserError;
use argon2::{PasswordHasher, PasswordVerifier};

verus! {

/// Whether a plaintext password matches a stored digest: the digest embeds
/// the salt and parameters, so this is a function of the two strings alone.
/// Named, not written out: the Argon2 derivation is computed by the
/// `argon2` crate, never by this crate.
pub uninterp spec fn password_matches(password: Seq<char>, digest: Seq<char>) -> bool;

/// The error type of the `password-hash` crate, as `argon2` re-exports it.
#[verifier::external_type_specification]
#[verifier::external_body]
pub struct ExPasswordHashError(argon2::password_hash::Error);

/// Relies on `argon2::Argon2::hash_password` (default parameters, fresh
/// random salt): on success the returned PHC string verifies the hashed
/// password, as the crate's own round-trip documentation shows. The salt
/// is random, so nothing relates the outputs of two calls.
#[verifier::external_body]
fn argon2_hash_password(plain: &str) -> (r: Result<String, argon2::password_hash::Error>)
    ensures
        r is Ok ==> password_matches(plain@, r.unwrap()@),
{
    match argon2::Argon2::default().hash_password(plain.as_bytes()) {
        Ok(h) => Ok(h.to_string()),
        Err(e) => Err(e),
    }
}

/// Relies on `argon2::Argon2::verify_password`: it re-derives with the
/// salt and parameters parsed from the digest and compares the outputs, a
/// function of the password and the digest alone. A digest that does not
/// parse never matches.
#[verifier::external_body]
fn argon2_verify_password(plain: &str, digest: &str) -> (r: bool)
    ensures
        r == password_matches(plain@, digest@),
{
    match argon2::PasswordHash::new(digest) {
        Ok(parsed) => {
            argon2::Argon2::default().verify_password(plain.as_bytes(), &parsed).is_ok()
        },
        Err(_) => false,
    }
}

/// Derive a salted digest of `plaintext`, suitable for at-rest storage.
/// On success the digest verifies the plaintext it was derived from.
pub fn hash(plaintext: &str) -> (r: Result<String, UserError>)
    ensures
        r is Ok ==> password_matches(plaintext@, r.unwrap()@),
        r is Err ==> r.unwrap_err() is PasswordHashError,
{
    match argon2_hash_password(plaintext) {
        Ok(digest) => Ok(digest),
        Err(_) => Err(UserError::PasswordHashError),
    }
}

/// Check `plaintext` against a stored digest. Returns `false`, and never
/// fails, on a mismatch or a malformed digest.
pub fn verify(plaintext: &str, digest: &str) -> (r: bool)
    ensures
        r == password_matches(plaintext@, digest@),
{
    argon2_verify_password(plaintext, digest)
}

} // verus!
