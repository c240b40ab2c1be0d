//! Domain records and the error taxonomy.
//!
//! Identifiers are 128-bit values (the width of a UUID), instants are
//! seconds on a single timeline, and a user's creation date is a day
//! number on that timeline.

use vstd::prelude::*;
use vstd::string::StringExecFns;

verus! {

/// Validity window granted to every newly issued token, in seconds.
pub const TOKEN_TTL_SECONDS: i64 = 3600;

/// A stored user row. `password_hash` holds the salted digest of the
/// password, never the plaintext.
#[derive(Debug)]
pub struct UserModel {
    pub id: u128,
    pub username: String,
    pub email: String,
    pub password_hash: String,
    pub is_admin: bool,
    pub created_at: i64,
}

/// A stored token row. `token_hash` holds the one-way digest of the bearer
/// secret, never the secret itself. `replaced_by` and `previous_token_id`
/// are the two directions of the rotation chain.
#[derive(Debug)]
pub struct TokenModel {
    pub id: u128,
    pub user_id: u128,
    pub token_hash: String,
    pub created_at: i64,
    pub expires_at: i64,
    pub revoked_at: Option<i64>,
    pub ip_address: String,
    pub user_agent: String,
    pub replaced_by: Option<u128>,
    pub previous_token_id: Option<u128>,
}

/// Failures of the user operations. `InvalidCredentials` carries the
/// attempted username; a login failure looks the same whether the username
/// was unknown or the password wrong.
#[derive(Debug)]
pub enum UserError {
    InternalServerError,
    NotFound(u128),
    InvalidCredentials(String),
    PasswordHashError,
    Conflict,
}

/// Failures of the token operations. `UnknownToken`, `Expired` and
/// `Revoked` are the reasons a presented secret can fail validation;
/// `Conflict` reports a lost rotation race or a digest collision.
#[derive(Debug)]
pub enum TokenError {
    InternalServerError,
    NotFound(u128),
    InvalidUuid(String),
    InvalidInput,
    UnknownToken,
    Expired,
    Revoked,
    Conflict,
}

impl Clone for UserModel {
    fn clone(&self) -> (r: UserModel)
        ensures
            r == *self,
    {
        UserModel {
            id: self.id,
            username: self.username.clone(),
            email: self.email.clone(),
            password_hash: self.password_hash.clone(),
            is_admin: self.is_admin,
            created_at: self.created_at,
        }
    }
}

impl Clone for TokenModel {
    fn clone(&self) -> (r: TokenModel)
        ensures
            r == *self,
    {
        TokenModel {
            id: self.id,
            user_id: self.user_id,
            token_hash: self.token_hash.clone(),
            created_at: self.created_at,
            expires_at: self.expires_at,
            revoked_at: self.revoked_at,
            ip_address: self.ip_address.clone(),
            user_agent: self.user_agent.clone(),
            replaced_by: self.replaced_by,
            previous_token_id: self.previous_token_id,
        }
    }
}

/// Transport status a user failure maps to, as one central table.
pub open spec fn user_error_status(e: UserError) -> u16 {
    match e {
        UserError::NotFound(_) => 404,
        UserError::InvalidCredentials(_) => 401,
        UserError::InternalServerError => 500,
        UserError::PasswordHashError => 500,
        UserError::Conflict => 409,
    }
}

/// Transport status a token failure maps to, as one central table.
pub open spec fn token_error_status(e: TokenError) -> u16 {
    match e {
        TokenError::NotFound(_) => 404,
        TokenError::InvalidUuid(_) => 400,
        TokenError::InvalidInput => 400,
        TokenError::UnknownToken => 401,
        TokenError::Expired => 401,
        TokenError::Revoked => 401,
        TokenError::Conflict => 409,
        TokenError::InternalServerError => 500,
    }
}

/// The externally visible message of a user failure. A login failure
/// reads the same whether the username was unknown or the password wrong,
/// so a caller cannot enumerate usernames.
pub open spec fn user_error_message(e: UserError) -> Seq<char> {
    match e {
        UserError::NotFound(_) => "UserModel has not been found"@,
        UserError::InvalidCredentials(name) => "User with username "@ + name@
            + " and provided password has not been found"@,
        UserError::PasswordHashError => "Internal server error"@,
        UserError::InternalServerError => "Internal server error"@,
        UserError::Conflict => "Conflict"@,
    }
}

impl UserError {
    /// The message this failure is reported with.
    pub fn message(&self) -> (r: String)
        ensures
            r@ == user_error_message(*self),
    {
        match self {
            UserError::InvalidCredentials(name) => {
                let mut s = "User with username ".to_owned();
                s.append(name.as_str());
                s.append(" and provided password has not been found");
                proof {
                    assert(s@ =~= "User with username "@ + name@
                        + " and provided password has not been found"@);
                }
                s
            },
            UserError::NotFound(_) => "UserModel has not been found".to_owned(),
            UserError::PasswordHashError => "Internal server error".to_owned(),
            UserError::InternalServerError => "Internal server error".to_owned(),
            UserError::Conflict => "Conflict".to_owned(),
        }
    }

    /// HTTP status code this failure is reported with.
    pub fn status_code(&self) -> (r: u16)
        ensures
            r == user_error_status(*self),
    {
        match self {
            UserError::NotFound(_) => 404,
            UserError::InvalidCredentials(_) => 401,
            UserError::InternalServerError => 500,
            UserError::PasswordHashError => 500,
            UserError::Conflict => 409,
        }
    }
}

impl TokenError {
    /// HTTP status code this failure is reported with.
    pub fn status_code(&self) -> (r: u16)
        ensures
            r == token_error_status(*self),
    {
        match self {
            TokenError::NotFound(_) => 404,
            TokenError::InvalidUuid(_) => 400,
            TokenError::InvalidInput => 400,
            TokenError::UnknownToken => 401,
            TokenError::Expired => 401,
            TokenError::Revoked => 401,
            TokenError::Conflict => 409,
            TokenError::InternalServerError => 500,
        }
    }
}

} // verus!
