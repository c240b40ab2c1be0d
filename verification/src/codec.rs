//! One-way digesting of bearer tokens.
//!
//! A presented secret is never stored; only `hash_token` of it is. The
//! digest is deterministic — the same secret always yields the same stored
//! value — so a lookup is an exact match on the digest, unlike password
//! digests, which embed a fresh salt on every call.

use vstd::prelude::*;
use sha2::Digest;

verus! {

/// The SHA-256 digest of the UTF-8 encoding of a string. Named, not
/// written out: nothing in this crate recomputes it, the `sha2` crate does.
pub uninterp spec fn sha256_of(s: Seq<char>) -> Seq<u8>;

/// The lowercase hexadecimal digit for a value below 16.
pub open spec fn hex_digit_char(n: u8) -> char
    recommends
        n < 16,
{
    if n < 10 {
        (('0' as u8) + n) as char
    } else {
        (('a' as u8) + (n - 10)) as char
    }
}

/// Lowercase hexadecimal rendering of a byte string: two digits per byte,
/// high digit first.
pub open spec fn hex_of(bytes: Seq<u8>) -> Seq<char> {
    Seq::new(
        bytes.len() * 2,
        |i: int|
            if i % 2 == 0 {
                hex_digit_char(bytes[i / 2] / 16)
            } else {
                hex_digit_char(bytes[i / 2] % 16)
            },
    )
}

/// The stored form of a bearer secret: lowercase hex of its SHA-256 digest.
pub open spec fn token_digest(raw: Seq<char>) -> Seq<char> {
    hex_of(sha256_of(raw))
}

/// Relies on `sha2::Sha256` (through the `Digest` trait): the digest is a
/// function of the input bytes alone and is 32 bytes long.
#[verifier::external_body]
fn sha256_digest(raw: &str) -> (r: Vec<u8>)
    ensures
        r@ == sha256_of(raw@),
        r@.len() == 32,
{
    sha2::Sha256::digest(raw.as_bytes()).to_vec()
}

/// Relies on `hex::encode`: each input byte becomes exactly two lowercase
/// hexadecimal digits, high digit first.
#[verifier::external_body]
fn hex_encode(bytes: &Vec<u8>) -> (r: String)
    ensures
        r@ == hex_of(bytes@),
{
    hex::encode(bytes)
}

/// Digest a bearer secret for at-rest storage.
pub fn hash_token(token: &str) -> (r: String)
    ensures
        r@ == token_digest(token@),
        r@.len() == 64,
{
    let digest = sha256_digest(token);
    hex_encode(&digest)
}

} // verus!
