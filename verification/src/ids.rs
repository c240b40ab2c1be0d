//! Identifiers presented over the wire.
//!
//! Identifiers live in requests as UUID strings; internally they are the
//! 128-bit values those strings denote.

use vstd::prelude::*;
use crate::models::TokenError;

verus! {

/// The 128-bit value a UUID string denotes, in any of the textual forms
/// `uuid::Uuid::parse_str` accepts, or nothing if the string is not a
/// UUID. Named, not written out: the `uuid` crate does the parsing.
pub uninterp spec fn parsed_uuid(s: Seq<char>) -> Option<u128>;

/// Relies on `uuid::Uuid::parse_str` and `uuid::Uuid::as_u128`: parsing
/// is a function of the string alone, and `as_u128` returns the UUID's
/// 128-bit value.
#[verifier::external_body]
fn uuid_from_str(s: &str) -> (r: Option<u128>)
    ensures
        r == parsed_uuid(s@),
{
    match uuid::Uuid::parse_str(s) {
        Ok(u) => Some(u.as_u128()),
        Err(_) => None,
    }
}

/// Read an identifier from its wire form. Fails with `InvalidUuid`,
/// carrying the offending text, exactly when the text denotes no UUID.
pub fn parse_token_id(s: &str) -> (r: Result<u128, TokenError>)
    ensures
        r is Ok <==> parsed_uuid(s@) is Some,
        r is Ok ==> r.unwrap() == parsed_uuid(s@).unwrap(),
        r is Err ==> (r.unwrap_err() matches TokenError::InvalidUuid(t) && t@ == s@),
{
    match uuid_from_str(s) {
        Some(v) => Ok(v),
        None => Err(TokenError::InvalidUuid(s.to_owned())),
    }
}

} // verus!
