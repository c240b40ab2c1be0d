//! The operations the service exposes, over plain request and response
//! values. Transport concerns — routing, extraction, serialization —
//! live outside the library and hand these functions plain data.

use vstd::prelude::*;
use crate::clock::now_seconds;
use crate::codec::token_digest;
use crate::credentials;
use crate::credentials::password_matches;
use crate::models::{TOKEN_TTL_SECONDS, TokenError, UserError, UserModel};
use crate::token_store::{hash_present, wf_tokens, TokenStore};
use crate::user_store::{
    filtered_users, username_index, username_taken, username_taken_by_other, wf_users, NewUserDb,
    UpdateUserDb, UserStore, UsersFilter,
};

verus! {

/// A user to be created: credentials and contact address. The password
/// arrives in plaintext and leaves this function only as a salted digest.
#[derive(Debug)]
pub struct CreatUserRequest {
    pub username: String,
    pub email: String,
    pub password: String,
}

/// A partial update of a user: absent fields are left as they are.
#[derive(Debug)]
pub struct PatchUserRequest {
    pub username: Option<String>,
    pub email: Option<String>,
    pub password: Option<String>,
}

/// A login attempt.
#[derive(Debug)]
pub struct LoginUserRequest {
    pub username: String,
    pub password: String,
}

/// A user as callers see it: never the password digest.
#[derive(Debug)]
pub struct UserResponse {
    pub id: u128,
    pub username: String,
    pub email: String,
    pub created_at: i64,
}

/// A listing of users.
#[derive(Debug)]
pub struct ListUsersResponse {
    pub users: Vec<UserResponse>,
}

/// A token to be issued: the owning user, the provenance the caller
/// reports, and the bearer secret to digest.
#[derive(Debug)]
pub struct CreatTokenRequest {
    pub user_id: u128,
    pub user_agent: String,
    pub ip_address: String,
    pub token: String,
}

/// An issued token as the caller sees it: the one time the raw secret is
/// shown — the store keeps only its digest.
#[derive(Debug)]
pub struct TokenResponse {
    pub id: u128,
    pub user_id: u128,
    pub token: String,
    pub expires_at: i64,
}

/// The response renders this user: every public field, and no digest.
pub open spec fn is_user_response(r: UserResponse, u: UserModel) -> bool {
    &&& r.id == u.id
    &&& r.username@ == u.username@
    &&& r.email@ == u.email@
    &&& r.created_at == u.created_at
}

/// Render a user for a caller, without the password digest.
pub fn adapt_user_to_user_response(user: &UserModel) -> (r: UserResponse)
    ensures
        is_user_response(r, *user),
{
    UserResponse {
        id: user.id,
        username: user.username.clone(),
        email: user.email.clone(),
        created_at: user.created_at,
    }
}

/// Create a user dated `today`: the password is digested with a fresh
/// salt and only the digest is stored. Fails with `Conflict` exactly when
/// the username is already held (given the digestion succeeded), and with
/// `PasswordHashError` when it did not; on failure nothing is stored.
pub fn create_user(store: &mut UserStore, new_user: CreatUserRequest, today: i64) -> (r: Result<
    UserResponse,
    UserError,
>)
    requires
        wf_users(old(store)@),
    ensures
        wf_users(final(store)@),
        username_taken(old(store)@, new_user.username@) ==> r is Err,
        r is Err ==> final(store)@ == old(store)@,
        r is Err ==> r.unwrap_err() is Conflict || r.unwrap_err() is PasswordHashError,
        r is Err && r.unwrap_err() is Conflict ==> username_taken(old(store)@, new_user.username@),
        r is Err && !username_taken(old(store)@, new_user.username@) ==> r.unwrap_err()
            is PasswordHashError,
        r is Ok ==> {
            let u = final(store)@.last();
            &&& final(store)@ == old(store)@.push(u)
            &&& u.id == old(store)@.len() as u128
            &&& u.username@ == new_user.username@
            &&& u.email@ == new_user.email@
            &&& u.is_admin == false
            &&& u.created_at == today
            &&& password_matches(new_user.password@, u.password_hash@)
            &&& is_user_response(r.unwrap(), u)
        },
{
    let hashed_password = match credentials::hash(new_user.password.as_str()) {
        Ok(h) => h,
        Err(e) => {
            return Err(e);
        },
    };
    let new_user_db = NewUserDb {
        email: new_user.email,
        username: new_user.username,
        password_hash: hashed_password,
        is_admin: false,
    };
    let created_user = match store.insert(new_user_db, today) {
        Ok(u) => u,
        Err(e) => {
            return Err(e);
        },
    };
    Ok(adapt_user_to_user_response(&created_user))
}

/// The user with this identifier, rendered for a caller. Fails with
/// `NotFound` exactly when no user has it.
pub fn get_user(store: &UserStore, user_id: u128) -> (r: Result<UserResponse, UserError>)
    ensures
        r is Ok <==> (user_id as int) < store@.len(),
        r is Ok ==> is_user_response(r.unwrap(), store@[user_id as int]),
        r is Err ==> r.unwrap_err() == UserError::NotFound(user_id),
{
    match store.get(user_id) {
        Ok(user) => Ok(adapt_user_to_user_response(&user)),
        Err(e) => Err(e),
    }
}

/// All users passing the filter, in storage order, rendered for a caller.
pub fn list_users(store: &UserStore, params: UsersFilter) -> (r: ListUsersResponse)
    ensures
        r.users@.len() == filtered_users(store@, params).len(),
        forall|i: int|
            0 <= i < r.users@.len() ==> is_user_response(
                #[trigger] r.users@[i],
                filtered_users(store@, params)[i],
            ),
{
    let users = store.get_all(params);
    let mut out: Vec<UserResponse> = Vec::new();
    let mut i: usize = 0;
    while i < users.len()
        invariant
            i <= users@.len(),
            users@ == filtered_users(store@, params),
            out@.len() == i,
            forall|k: int|
                0 <= k < i ==> is_user_response(#[trigger] out@[k], users@[k]),
        decreases users@.len() - i,
    {
        out.push(adapt_user_to_user_response(&users[i]));
        i = i + 1;
    }
    ListUsersResponse { users: out }
}

/// Log a user in. Succeeds exactly when the username names a user and the
/// password matches that user's stored digest; any failure — unknown
/// username, wrong password, digest that does not parse — is the same
/// `InvalidCredentials`, carrying the attempted username, so the two
/// causes are indistinguishable to the caller.
pub fn login_user(store: &UserStore, login: LoginUserRequest) -> (r: Result<
    UserResponse,
    UserError,
>)
    requires
        wf_users(store@),
    ensures
        r is Ok <==> username_taken(store@, login.username@) && password_matches(
            login.password@,
            store@[username_index(store@, login.username@)].password_hash@,
        ),
        r is Ok ==> is_user_response(
            r.unwrap(),
            store@[username_index(store@, login.username@)],
        ),
        r is Err ==> (r.unwrap_err() matches UserError::InvalidCredentials(name) && name@
            == login.username@),
{
    let user = match store.find_by_username(&login.username) {
        Some(u) => u,
        None => {
            return Err(UserError::InvalidCredentials(login.username));
        },
    };
    if credentials::verify(login.password.as_str(), user.password_hash.as_str()) {
        Ok(adapt_user_to_user_response(&user))
    } else {
        Err(UserError::InvalidCredentials(login.username))
    }
}

/// Apply a partial update to the user with this identifier: present
/// fields replace the stored ones, and a present password is digested
/// with a fresh salt before it is stored. Fails with `NotFound` exactly
/// when no user has the identifier, with `Conflict` when the new username
/// is held by another user, and with `PasswordHashError` when the
/// digestion fails; on failure nothing changes. When the identifier
/// exists, no other user holds the requested username and no password
/// change is requested, the update succeeds.
pub fn patch_user(store: &mut UserStore, user_id: u128, patch: PatchUserRequest) -> (r: Result<
    UserResponse,
    UserError,
>)
    requires
        wf_users(old(store)@),
    ensures
        wf_users(final(store)@),
        (user_id as int) >= old(store)@.len() ==> r is Err && r.unwrap_err() == UserError::NotFound(
            user_id,
        ),
        r is Err ==> final(store)@ == old(store)@,
        r is Err ==> r.unwrap_err() == UserError::NotFound(user_id) || r.unwrap_err() is Conflict
            || r.unwrap_err() is PasswordHashError,
        r is Err && r.unwrap_err() is Conflict ==> (patch.username matches Some(n)
            && username_taken_by_other(old(store)@, n@, user_id)),
        ((user_id as int) < old(store)@.len() && patch.password is None && (
        patch.username matches Some(n) ==> !username_taken_by_other(old(store)@, n@, user_id)))
            ==> r is Ok,
        r is Ok ==> {
            let pre = old(store)@;
            let post = final(store)@;
            let u = post[user_id as int];
            &&& (user_id as int) < pre.len()
            &&& post.len() == pre.len()
            &&& forall|k: int| 0 <= k < post.len() && k != user_id as int ==> post[k] == pre[k]
            &&& u.id == user_id
            &&& u.created_at == pre[user_id as int].created_at
            &&& u.is_admin == pre[user_id as int].is_admin
            &&& u.username@ == match patch.username {
                Some(n) => n@,
                None => pre[user_id as int].username@,
            }
            &&& u.email@ == match patch.email {
                Some(e) => e@,
                None => pre[user_id as int].email@,
            }
            &&& (patch.password matches Some(p) ==> password_matches(p@, u.password_hash@))
            &&& (patch.password is None ==> u.password_hash@ == pre[user_id as int].password_hash@)
            &&& is_user_response(r.unwrap(), u)
        },
{
    let current = match store.get(user_id) {
        Ok(u) => u,
        Err(e) => {
            return Err(e);
        },
    };
    let username = match patch.username {
        Some(n) => n,
        None => current.username,
    };
    let email = match patch.email {
        Some(e) => e,
        None => current.email,
    };
    let password_hash = match patch.password {
        Some(p) => match credentials::hash(p.as_str()) {
            Ok(h) => h,
            Err(e) => {
                return Err(e);
            },
        },
        None => current.password_hash,
    };
    let update_user = UpdateUserDb {
        email,
        username,
        password_hash,
        is_admin: current.is_admin,
    };
    let updated_user = match store.update(user_id, update_user) {
        Ok(u) => u,
        Err(e) => {
            return Err(e);
        },
    };
    Ok(adapt_user_to_user_response(&updated_user))
}

/// Issue the requested token at the current instant, binding it to the
/// requested user and to the provenance the transport observed. The
/// response returns the raw secret — the one time it is shown; the store
/// keeps only its digest. Fails with `Conflict` exactly when the digest
/// is already stored (the clock permitting), and stores nothing on
/// failure.
pub fn create_token(
    store: &mut TokenStore,
    new_token: CreatTokenRequest,
    ip_address: &str,
    user_agent: &str,
) -> (r: Result<TokenResponse, TokenError>)
    requires
        wf_tokens(old(store)@),
    ensures
        wf_tokens(final(store)@),
        r is Err ==> final(store)@ == old(store)@,
        r is Err ==> r.unwrap_err() is Conflict || r.unwrap_err() is InternalServerError,
        hash_present(old(store)@, token_digest(new_token.token@)) ==> r is Err,
        r is Err && r.unwrap_err() is Conflict ==> hash_present(
            old(store)@,
            token_digest(new_token.token@),
        ),
        r is Ok ==> {
            let t = final(store)@.last();
            &&& final(store)@ == old(store)@.push(t)
            &&& t.id == old(store)@.len() as u128
            &&& t.user_id == new_token.user_id
            &&& t.token_hash@ == token_digest(new_token.token@)
            &&& t.expires_at == t.created_at + TOKEN_TTL_SECONDS
            &&& t.revoked_at is None
            &&& t.replaced_by is None
            &&& t.previous_token_id is None
            &&& t.ip_address@ == ip_address@
            &&& t.user_agent@ == user_agent@
            &&& r.unwrap().id == t.id
            &&& r.unwrap().user_id == t.user_id
            &&& r.unwrap().token@ == new_token.token@
            &&& r.unwrap().expires_at == t.expires_at
        },
{
    let now = now_seconds();
    if now > i64::MAX - TOKEN_TTL_SECONDS {
        return Err(TokenError::InternalServerError);
    }
    let raw_token = new_token.token;
    match store.issue(new_token.user_id, raw_token.as_str(), ip_address, user_agent, now) {
        Ok(rec) => Ok(
            TokenResponse {
                id: rec.id,
                user_id: rec.user_id,
                token: raw_token,
                expires_at: rec.expires_at,
            },
        ),
        Err(e) => Err(e),
    }
}

} // verus!
