//! Token rows, the repository operations over them, and the token
//! lifecycle: issuance, rotation and validation.
//!
//! The store assigns each row an identifier equal to its position and
//! never deletes a row — revoked rows are kept for audit. Well-formedness
//! ties the rotation chain together: stored digests are unique, the two
//! link directions agree, a superseded token is revoked, and every
//! backward link points to an older row, so every chain is acyclic and
//! ends at an original issuance.

use vstd::prelude::*;
use crate::codec::{hash_token, token_digest};
use crate::models::{TOKEN_TTL_SECONDS, TokenError, TokenModel};

verus! {

/// Fields of a token row to be created; the store assigns the identifier,
/// and a created row carries no revocation and no links yet.
pub struct NewTokenDb {
    pub user_id: u128,
    pub token_hash: String,
    pub created_at: i64,
    pub expires_at: i64,
    pub ip_address: String,
    pub user_agent: String,
}

/// Replacement values for an explicit revocation: the new expiry, the
/// revocation instant, and no forward link — forward links are written
/// only by `rotate`.
pub struct UpdateTokenDb {
    pub expires_at: i64,
    pub revoked_at: i64,
    pub replaced_by: Option<u128>,
}

/// Restriction of a listing. Only `user_id` and a non-empty `ip_address`
/// narrow the result; the remaining fields are accepted and ignored.
pub struct TokensFilter {
    pub user_id: Option<u128>,
    pub ip_address: Option<String>,
    pub user_agent: Option<String>,
    pub expires_at: Option<i64>,
    pub get_chained_tokens: Option<bool>,
}

/// In-memory token repository.
pub struct TokenStore {
    tokens: Vec<TokenModel>,
}

/// Every row's identifier is its position; rows are never deleted, so
/// identifiers are stable.
pub open spec fn token_ids_sequential(s: Seq<TokenModel>) -> bool {
    forall|i: int| 0 <= i < s.len() ==> (#[trigger] s[i]).id == i as u128
}

/// Every row expires strictly after it was created.
pub open spec fn token_windows_valid(s: Seq<TokenModel>) -> bool {
    forall|i: int| 0 <= i < s.len() ==> (#[trigger] s[i]).created_at < s[i].expires_at
}

/// No two rows store the same digest, so a lookup by digest is exact.
pub open spec fn token_hashes_unique(s: Seq<TokenModel>) -> bool {
    forall|i: int, j: int|
        #![trigger s[i].token_hash, s[j].token_hash]
        0 <= i < s.len() && 0 <= j < s.len() && i != j ==> s[i].token_hash@ != s[j].token_hash@
}

/// The rotation links of row `i` are sound: a forward link names a newer
/// row whose backward link points here, and only a revoked row is
/// superseded; a backward link names an older row whose forward link
/// points here.
pub open spec fn token_links_ok(s: Seq<TokenModel>, i: int) -> bool {
    &&& (s[i].replaced_by is Some ==> {
        let j = s[i].replaced_by.unwrap() as int;
        &&& i < j < s.len()
        &&& s[j].previous_token_id == Some(i as u128)
        &&& s[i].revoked_at is Some
    })
    &&& (s[i].previous_token_id is Some ==> {
        let p = s[i].previous_token_id.unwrap() as int;
        &&& 0 <= p < i
        &&& s[p].replaced_by == Some(i as u128)
    })
}

/// The rotation links of every row are sound.
pub open spec fn token_links_consistent(s: Seq<TokenModel>) -> bool {
    forall|i: int| 0 <= i < s.len() ==> #[trigger] token_links_ok(s, i)
}

/// Well-formedness of the stored token rows.
pub open spec fn wf_tokens(s: Seq<TokenModel>) -> bool {
    &&& token_ids_sequential(s)
    &&& token_windows_valid(s)
    &&& token_hashes_unique(s)
    &&& token_links_consistent(s)
}

/// Some row stores this digest.
pub open spec fn hash_present(s: Seq<TokenModel>, h: Seq<char>) -> bool {
    exists|i: int| 0 <= i < s.len() && (#[trigger] s[i]).token_hash@ == h
}

/// The position of the row storing this digest (meaningful when
/// `hash_present` holds; unique when the store is well-formed).
pub open spec fn hash_index(s: Seq<TokenModel>, h: Seq<char>) -> int {
    choose|i: int| 0 <= i < s.len() && (#[trigger] s[i]).token_hash@ == h
}

/// Whether a row passes a listing filter.
pub open spec fn token_matches_filter(t: TokenModel, f: TokensFilter) -> bool {
    &&& match f.user_id {
        Some(uid) => t.user_id == uid,
        None => true,
    }
    &&& match f.ip_address {
        Some(ip) => ip@.len() == 0 || t.ip_address@ == ip@,
        None => true,
    }
}

/// The subsequence of rows passing the filter, in storage order.
pub open spec fn filtered_tokens(s: Seq<TokenModel>, f: TokensFilter) -> Seq<TokenModel>
    decreases s.len(),
{
    if s.len() == 0 {
        Seq::empty()
    } else {
        let rest = filtered_tokens(s.drop_last(), f);
        if token_matches_filter(s.last(), f) {
            rest.push(s.last())
        } else {
            rest
        }
    }
}

/// Appending a row extends the filtered subsequence exactly when the row
/// passes the filter.
proof fn lemma_filtered_tokens_push(s: Seq<TokenModel>, t: TokenModel, f: TokensFilter)
    ensures
        filtered_tokens(s.push(t), f) == if token_matches_filter(t, f) {
            filtered_tokens(s, f).push(t)
        } else {
            filtered_tokens(s, f)
        },
{
    assert(s.push(t).drop_last() =~= s);
    assert(s.push(t).last() == t);
}

/// What a freshly issued row looks like: bound to its user and provenance,
/// valid from `now` for the fixed window, unrevoked and unlinked.
pub open spec fn issued_token(
    t: TokenModel,
    id: u128,
    user_id: u128,
    h: Seq<char>,
    ip: Seq<char>,
    ua: Seq<char>,
    now: i64,
) -> bool {
    &&& t.id == id
    &&& t.user_id == user_id
    &&& t.token_hash@ == h
    &&& t.created_at == now
    &&& t.expires_at == now + TOKEN_TTL_SECONDS
    &&& t.revoked_at is None
    &&& t.ip_address@ == ip
    &&& t.user_agent@ == ua
    &&& t.replaced_by is None
    &&& t.previous_token_id is None
}

/// The conditions under which rotating row `old_id` with a secret whose
/// digest is `h` succeeds: the row exists, is neither revoked nor already
/// superseded, and the new digest is not yet stored.
pub open spec fn rotate_ok(s: Seq<TokenModel>, old_id: u128, h: Seq<char>) -> bool {
    &&& (old_id as int) < s.len()
    &&& s[old_id as int].revoked_at is None
    &&& s[old_id as int].replaced_by is None
    &&& !hash_present(s, h)
}

/// How a successful rotation of row `a` at instant `now` relates the store
/// before and after, with `b` the freshly appended token: `a` is revoked
/// and points forward to `b`, `b` points back to `a` and carries `a`'s
/// user and provenance with a fresh validity window, and every other row
/// is untouched.
pub open spec fn rotated(
    pre: Seq<TokenModel>,
    post: Seq<TokenModel>,
    a: int,
    b: TokenModel,
    now: i64,
) -> bool {
    &&& post.len() == pre.len() + 1
    &&& b == post[pre.len() as int]
    &&& b.id == pre.len() as u128
    &&& forall|k: int| 0 <= k < pre.len() && k != a ==> post[k] == pre[k]
    &&& post[a].revoked_at == Some(now)
    &&& post[a].replaced_by == Some(b.id)
    &&& post[a].id == pre[a].id
    &&& post[a].user_id == pre[a].user_id
    &&& post[a].token_hash@ == pre[a].token_hash@
    &&& post[a].created_at == pre[a].created_at
    &&& post[a].expires_at == pre[a].expires_at
    &&& post[a].previous_token_id == pre[a].previous_token_id
    &&& post[a].ip_address@ == pre[a].ip_address@
    &&& post[a].user_agent@ == pre[a].user_agent@
    &&& b.user_id == pre[a].user_id
    &&& b.created_at == now
    &&& b.expires_at == now + TOKEN_TTL_SECONDS
    &&& b.revoked_at is None
    &&& b.replaced_by is None
    &&& b.previous_token_id == Some(pre[a].id)
    &&& b.ip_address@ == pre[a].ip_address@
    &&& b.user_agent@ == pre[a].user_agent@
}

/// The reason a failed rotation reports: a missing row, otherwise a
/// conflict (already revoked, already superseded, or a digest collision).
pub open spec fn rotate_error(s: Seq<TokenModel>, old_id: u128) -> TokenError {
    if (old_id as int) < s.len() {
        TokenError::Conflict
    } else {
        TokenError::NotFound(old_id)
    }
}

/// The reason a failed validation reports: no row stores the digest;
/// otherwise the row is past its expiry; otherwise it is revoked.
pub open spec fn validate_error(s: Seq<TokenModel>, h: Seq<char>, now: i64) -> TokenError {
    if !hash_present(s, h) {
        TokenError::UnknownToken
    } else if now > s[hash_index(s, h)].expires_at {
        TokenError::Expired
    } else {
        TokenError::Revoked
    }
}

impl View for TokenStore {
    type V = Seq<TokenModel>;

    closed spec fn view(&self) -> Seq<TokenModel> {
        self.tokens@
    }
}

impl TokenStore {
    /// An empty store.
    pub fn new() -> (r: TokenStore)
        ensures
            r@ == Seq::<TokenModel>::empty(),
            wf_tokens(r@),
    {
        TokenStore { tokens: Vec::new() }
    }

    /// Number of stored rows.
    pub fn len(&self) -> (r: usize)
        ensures
            r == self@.len(),
    {
        self.tokens.len()
    }

    /// Position of the row storing this digest, if any.
    fn find_index_by_hash(&self, h: &String) -> (r: Option<usize>)
        ensures
            r is Some ==> r.unwrap() < self@.len() && self@[r.unwrap() as int].token_hash@ == h@,
            r is None ==> !hash_present(self@, h@),
    {
        let n = self.tokens.len();
        let mut i: usize = 0;
        while i < n
            invariant
                i <= n,
                n == self@.len(),
                forall|k: int| 0 <= k < i ==> (#[trigger] self@[k]).token_hash@ != h@,
            decreases n - i,
        {
            if self.tokens[i].token_hash == *h {
                return Some(i);
            }
            i = i + 1;
        }
        None
    }

    /// Create a row with the given fields and a fresh identifier, with no
    /// revocation and no links. Fails with `Conflict`, and stores nothing,
    /// exactly when the digest is already stored.
    pub fn insert(&mut self, new_token: NewTokenDb) -> (r: Result<TokenModel, TokenError>)
        requires
            wf_tokens(old(self)@),
            new_token.created_at < new_token.expires_at,
        ensures
            wf_tokens(final(self)@),
            r is Ok <==> !hash_present(old(self)@, new_token.token_hash@),
            r is Ok ==> {
                &&& final(self)@ == old(self)@.push(r.unwrap())
                &&& r.unwrap().id == old(self)@.len() as u128
                &&& r.unwrap().user_id == new_token.user_id
                &&& r.unwrap().token_hash@ == new_token.token_hash@
                &&& r.unwrap().created_at == new_token.created_at
                &&& r.unwrap().expires_at == new_token.expires_at
                &&& r.unwrap().revoked_at is None
                &&& r.unwrap().ip_address@ == new_token.ip_address@
                &&& r.unwrap().user_agent@ == new_token.user_agent@
                &&& r.unwrap().replaced_by is None
                &&& r.unwrap().previous_token_id is None
            },
            r is Err ==> final(self)@ == old(self)@ && r.unwrap_err() is Conflict,
    {
        match self.find_index_by_hash(&new_token.token_hash) {
            Some(_) => Err(TokenError::Conflict),
            None => {
                let ghost pre = self@;
                let token = TokenModel {
                    id: self.tokens.len() as u128,
                    user_id: new_token.user_id,
                    token_hash: new_token.token_hash,
                    created_at: new_token.created_at,
                    expires_at: new_token.expires_at,
                    revoked_at: None,
                    ip_address: new_token.ip_address,
                    user_agent: new_token.user_agent,
                    replaced_by: None,
                    previous_token_id: None,
                };
                let result = token.clone();
                self.tokens.push(token);
                proof {
                    let post = self@;
                    assert forall|i: int| 0 <= i < post.len() implies #[trigger] token_links_ok(
                        post,
                        i,
                    ) by {
                        if i < pre.len() {
                            assert(token_links_ok(pre, i));
                        }
                    };
                }
                Ok(result)
            },
        }
    }

    /// The row with this identifier. Fails with `NotFound` exactly when no
    /// row has it.
    pub fn get(&self, id: u128) -> (r: Result<TokenModel, TokenError>)
        ensures
            r is Ok <==> (id as int) < self@.len(),
            r is Ok ==> r.unwrap() == self@[id as int],
            r is Err ==> r.unwrap_err() == TokenError::NotFound(id),
    {
        if id < self.tokens.len() as u128 {
            Ok(self.tokens[id as usize].clone())
        } else {
            Err(TokenError::NotFound(id))
        }
    }

    /// All rows passing the filter, in storage order.
    pub fn get_all(&self, filter: TokensFilter) -> (r: Vec<TokenModel>)
        ensures
            r@ == filtered_tokens(self@, filter),
    {
        let mut out: Vec<TokenModel> = Vec::new();
        let n = self.tokens.len();
        let mut i: usize = 0;
        while i < n
            invariant
                i <= n,
                n == self@.len(),
                out@ == filtered_tokens(self@.take(i as int), filter),
            decreases n - i,
        {
            let matched = self.token_passes_filter(i, &filter);
            if matched {
                out.push(self.tokens[i].clone());
            }
            proof {
                assert(self@.take(i as int + 1) =~= self@.take(i as int).push(self@[i as int]));
                lemma_filtered_tokens_push(self@.take(i as int), self@[i as int], filter);
            }
            i = i + 1;
        }
        proof {
            assert(self@.take(n as int) =~= self@);
        }
        out
    }

    /// Whether the row at `i` passes the filter.
    fn token_passes_filter(&self, i: usize, filter: &TokensFilter) -> (r: bool)
        requires
            i < self@.len(),
        ensures
            r == token_matches_filter(self@[i as int], *filter),
    {
        let user_ok: bool = match &filter.user_id {
            Some(uid) => self.tokens[i].user_id == *uid,
            None => true,
        };
        let ip_ok: bool = match &filter.ip_address {
            Some(ip) => ip.as_str().is_empty() || self.tokens[i].ip_address == *ip,
            None => true,
        };
        user_ok && ip_ok
    }

    /// Revoke the row with this identifier at instant `revoked_at`, giving
    /// it the expiry `expires_at`; identity, digest and links are kept.
    /// Fails with `NotFound` exactly when no row has the identifier, and
    /// with `InvalidInput` exactly when the new expiry would not lie after
    /// the creation instant; on failure nothing changes.
    pub fn update(&mut self, token_id: u128, changes: UpdateTokenDb) -> (r: Result<
        TokenModel,
        TokenError,
    >)
        requires
            wf_tokens(old(self)@),
            changes.replaced_by is None,
        ensures
            wf_tokens(final(self)@),
            r is Ok <==> (token_id as int) < old(self)@.len() && changes.expires_at > old(
                self,
            )@[token_id as int].created_at,
            r is Ok ==> {
                &&& final(self)@.len() == old(self)@.len()
                &&& forall|k: int|
                    0 <= k < final(self)@.len() && k != token_id as int ==> final(self)@[k] == old(
                        self,
                    )@[k]
                &&& r.unwrap() == final(self)@[token_id as int]
                &&& r.unwrap().id == token_id
                &&& r.unwrap().user_id == old(self)@[token_id as int].user_id
                &&& r.unwrap().token_hash@ == old(self)@[token_id as int].token_hash@
                &&& r.unwrap().created_at == old(self)@[token_id as int].created_at
                &&& r.unwrap().expires_at == changes.expires_at
                &&& r.unwrap().revoked_at == Some(changes.revoked_at)
                &&& r.unwrap().replaced_by == old(self)@[token_id as int].replaced_by
                &&& r.unwrap().previous_token_id == old(self)@[token_id as int].previous_token_id
                &&& r.unwrap().ip_address@ == old(self)@[token_id as int].ip_address@
                &&& r.unwrap().user_agent@ == old(self)@[token_id as int].user_agent@
            },
            r is Err ==> final(self)@ == old(self)@,
            r is Err ==> r.unwrap_err() == if (token_id as int) < old(self)@.len() {
                TokenError::InvalidInput
            } else {
                TokenError::NotFound(token_id)
            },
    {
        if !(token_id < self.tokens.len() as u128) {
            return Err(TokenError::NotFound(token_id));
        }
        let idx = token_id as usize;
        if !(changes.expires_at > self.tokens[idx].created_at) {
            return Err(TokenError::InvalidInput);
        }
        let ghost pre = self@;
        let current = self.tokens[idx].clone();
        let updated = TokenModel {
            id: current.id,
            user_id: current.user_id,
            token_hash: current.token_hash,
            created_at: current.created_at,
            expires_at: changes.expires_at,
            revoked_at: Some(changes.revoked_at),
            ip_address: current.ip_address,
            user_agent: current.user_agent,
            replaced_by: current.replaced_by,
            previous_token_id: current.previous_token_id,
        };
        let result = updated.clone();
        self.tokens[idx] = updated;
        proof {
            let post = self@;
            assert forall|i: int| 0 <= i < post.len() implies #[trigger] token_links_ok(
                post,
                i,
            ) by {
                assert(token_links_ok(pre, i));
            };
        }
        Ok(result)
    }

    /// Issue a token for `user_id` at instant `now`: the secret is
    /// digested, never stored, and the row is valid for the fixed window
    /// and carries the caller's provenance. Fails with `Conflict`, and
    /// stores nothing, exactly when the secret's digest is already stored.
    pub fn issue(
        &mut self,
        user_id: u128,
        raw_token: &str,
        ip_address: &str,
        user_agent: &str,
        now: i64,
    ) -> (r: Result<TokenModel, TokenError>)
        requires
            wf_tokens(old(self)@),
            now + TOKEN_TTL_SECONDS <= i64::MAX,
        ensures
            wf_tokens(final(self)@),
            r is Ok <==> !hash_present(old(self)@, token_digest(raw_token@)),
            r is Ok ==> {
                &&& final(self)@ == old(self)@.push(r.unwrap())
                &&& issued_token(
                    r.unwrap(),
                    old(self)@.len() as u128,
                    user_id,
                    token_digest(raw_token@),
                    ip_address@,
                    user_agent@,
                    now,
                )
            },
            r is Err ==> final(self)@ == old(self)@ && r.unwrap_err() is Conflict,
    {
        let h = hash_token(raw_token);
        let new_token = NewTokenDb {
            user_id,
            token_hash: h,
            created_at: now,
            expires_at: now + TOKEN_TTL_SECONDS,
            ip_address: ip_address.to_owned(),
            user_agent: user_agent.to_owned(),
        };
        self.insert(new_token)
    }

    /// Rotate the row `old_token_id` at instant `now`: exactly one
    /// rotation can succeed per source token. On success the old row is
    /// revoked and linked forward to a fresh token carrying the same user
    /// and provenance, linked backward; the new secret is returned through
    /// the fresh row's digest. Fails with `NotFound` when the row does not
    /// exist, and with `Conflict` when it is already revoked or
    /// superseded, or on a digest collision; on failure nothing changes
    /// and no token is created.
    pub fn rotate(&mut self, old_token_id: u128, new_raw_token: &str, now: i64) -> (r: Result<
        TokenModel,
        TokenError,
    >)
        requires
            wf_tokens(old(self)@),
            now + TOKEN_TTL_SECONDS <= i64::MAX,
        ensures
            wf_tokens(final(self)@),
            r is Ok <==> rotate_ok(old(self)@, old_token_id, token_digest(new_raw_token@)),
            r is Ok ==> rotated(old(self)@, final(self)@, old_token_id as int, r.unwrap(), now),
            r is Ok ==> r.unwrap().token_hash@ == token_digest(new_raw_token@),
            r is Err ==> final(self)@ == old(self)@,
            r is Err ==> r.unwrap_err() == rotate_error(old(self)@, old_token_id),
    {
        if !(old_token_id < self.tokens.len() as u128) {
            return Err(TokenError::NotFound(old_token_id));
        }
        let idx = old_token_id as usize;
        if self.tokens[idx].revoked_at.is_some() || self.tokens[idx].replaced_by.is_some() {
            return Err(TokenError::Conflict);
        }
        let h = hash_token(new_raw_token);
        match self.find_index_by_hash(&h) {
            Some(_) => {
                return Err(TokenError::Conflict);
            },
            None => {},
        }
        let ghost pre = self@;
        let new_id = self.tokens.len() as u128;
        let old_rec = self.tokens[idx].clone();
        let retired = TokenModel {
            id: old_rec.id,
            user_id: old_rec.user_id,
            token_hash: old_rec.token_hash,
            created_at: old_rec.created_at,
            expires_at: old_rec.expires_at,
            revoked_at: Some(now),
            ip_address: old_rec.ip_address,
            user_agent: old_rec.user_agent,
            replaced_by: Some(new_id),
            previous_token_id: old_rec.previous_token_id,
        };
        self.tokens[idx] = retired;
        let fresh = TokenModel {
            id: new_id,
            user_id: self.tokens[idx].user_id,
            token_hash: h,
            created_at: now,
            expires_at: now + TOKEN_TTL_SECONDS,
            revoked_at: None,
            ip_address: self.tokens[idx].ip_address.clone(),
            user_agent: self.tokens[idx].user_agent.clone(),
            replaced_by: None,
            previous_token_id: Some(old_token_id),
        };
        let result = fresh.clone();
        self.tokens.push(fresh);
        proof {
            let post = self@;
            assert forall|i: int| 0 <= i < post.len() implies #[trigger] token_links_ok(
                post,
                i,
            ) by {
                if i < pre.len() {
                    assert(token_links_ok(pre, i));
                }
            };
        }
        Ok(result)
    }

    /// Decide whether a presented secret is currently usable at instant
    /// `now`. Succeeds, returning the stored row, exactly when a row
    /// stores the secret's digest, is within its validity window, and is
    /// not revoked; otherwise the reason is `UnknownToken`, `Expired` past
    /// the window, or `Revoked` — a revoked token is unusable even before
    /// its expiry.
    pub fn validate(&self, raw_token: &str, now: i64) -> (r: Result<TokenModel, TokenError>)
        requires
            wf_tokens(self@),
        ensures
            ({
                let h = token_digest(raw_token@);
                let idx = hash_index(self@, h);
                &&& (r is Ok <==> hash_present(self@, h) && now <= self@[idx].expires_at
                    && self@[idx].revoked_at is None)
                &&& (r is Ok ==> r.unwrap() == self@[idx])
                &&& (r is Err ==> r.unwrap_err() == validate_error(self@, h, now))
            }),
    {
        let h = hash_token(raw_token);
        match self.find_index_by_hash(&h) {
            None => Err(TokenError::UnknownToken),
            Some(i) => {
                proof {
                    let j = hash_index(self@, h@);
                    assert(self@[i as int].token_hash@ == h@);
                    assert(0 <= j < self@.len() && self@[j].token_hash@ == h@);
                    assert(i == j);
                }
                if now > self.tokens[i].expires_at {
                    Err(TokenError::Expired)
                } else if self.tokens[i].revoked_at.is_some() {
                    Err(TokenError::Revoked)
                } else {
                    Ok(self.tokens[i].clone())
                }
            },
        }
    }
}

/// The position of the original issuance at the start of the chain behind
/// row `i`: the row reached by following backward links while they exist.
pub open spec fn chain_root(s: Seq<TokenModel>, i: int) -> int
    decreases i,
{
    if s[i].previous_token_id is Some {
        let p = s[i].previous_token_id.unwrap() as int;
        if 0 <= p < i {
            chain_root(s, p)
        } else {
            i
        }
    } else {
        i
    }
}

/// In a well-formed store every rotation chain is acyclic: each backward
/// link strictly decreases the position, so following the chain from any
/// row terminates, at a row with no backward link — the original
/// issuance.
pub proof fn lemma_chain_terminates(s: Seq<TokenModel>, i: int)
    requires
        wf_tokens(s),
        0 <= i < s.len(),
    ensures
        0 <= chain_root(s, i) <= i,
        s[chain_root(s, i)].previous_token_id is None,
    decreases i,
{
    assert(token_links_ok(s, i));
    if s[i].previous_token_id is Some {
        let p = s[i].previous_token_id.unwrap() as int;
        assert(0 <= p < i);
        lemma_chain_terminates(s, p);
    }
}

/// A token can be rotated at most once: after a successful rotation of
/// row `a`, the store no longer satisfies the rotation conditions for
/// `a` — whatever secret is presented — so a second attempt fails with
/// `Conflict`.
pub proof fn lemma_no_second_rotation(
    pre: Seq<TokenModel>,
    post: Seq<TokenModel>,
    a: u128,
    b: TokenModel,
    now: i64,
    h: Seq<char>,
)
    requires
        (a as int) < pre.len(),
        rotated(pre, post, a as int, b, now),
    ensures
        !rotate_ok(post, a, h),
{
    assert(post[a as int].replaced_by is Some);
}

} // verus!
