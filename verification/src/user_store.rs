//! User rows and the repository operations over them.
//!
//! The store assigns each row an identifier equal to its position, keeps
//! usernames unique, and never deletes a row. Callers reach it through the
//! repository interface: `insert`, `get`, `find_by_username`, `get_all`
//! and `update`.

use vstd::prelude::*;
use crate::models::{UserError, UserModel};

verus! {

/// Fields of a user row to be created; the store assigns the identifier.
pub struct NewUserDb {
    pub email: String,
    pub username: String,
    pub password_hash: String,
    pub is_admin: bool,
}

/// Replacement values for the mutable fields of a user row.
pub struct UpdateUserDb {
    pub email: String,
    pub username: String,
    pub password_hash: String,
    pub is_admin: bool,
}

/// Restriction of a listing: to a set of usernames, to one username, or
/// neither.
pub struct UsersFilter {
    pub usernames: Option<Vec<String>>,
    pub username: Option<String>,
}

/// In-memory user repository.
pub struct UserStore {
    users: Vec<UserModel>,
}

/// Every row's identifier is its position; rows are never deleted, so
/// identifiers are stable.
pub open spec fn user_ids_sequential(s: Seq<UserModel>) -> bool {
    forall|i: int| 0 <= i < s.len() ==> (#[trigger] s[i]).id == i as u128
}

/// No two rows share a username.
pub open spec fn usernames_unique(s: Seq<UserModel>) -> bool {
    forall|i: int, j: int|
        #![trigger s[i].username, s[j].username]
        0 <= i < s.len() && 0 <= j < s.len() && i != j ==> s[i].username@ != s[j].username@
}

/// Well-formedness of the stored user rows.
pub open spec fn wf_users(s: Seq<UserModel>) -> bool {
    user_ids_sequential(s) && usernames_unique(s)
}

/// Some row holds this username.
pub open spec fn username_taken(s: Seq<UserModel>, name: Seq<char>) -> bool {
    exists|i: int| 0 <= i < s.len() && (#[trigger] s[i]).username@ == name
}

/// Some row other than `id` holds this username.
pub open spec fn username_taken_by_other(s: Seq<UserModel>, name: Seq<char>, id: u128) -> bool {
    exists|i: int| 0 <= i < s.len() && i != id as int && (#[trigger] s[i]).username@ == name
}

/// The position of the row holding this username (meaningful when
/// `username_taken` holds; unique when the store is well-formed).
pub open spec fn username_index(s: Seq<UserModel>, name: Seq<char>) -> int {
    choose|i: int| 0 <= i < s.len() && (#[trigger] s[i]).username@ == name
}

/// Whether a row passes a listing filter: a non-empty `usernames` list
/// restricts to its members, and `username` restricts to an exact match.
pub open spec fn user_matches_filter(u: UserModel, f: UsersFilter) -> bool {
    &&& match f.usernames {
        Some(list) => list@.len() == 0 || name_in_list(list@, u.username@),
        None => true,
    }
    &&& match f.username {
        Some(name) => u.username@ == name@,
        None => true,
    }
}

/// The name occurs in the list.
pub open spec fn name_in_list(names: Seq<String>, name: Seq<char>) -> bool {
    exists|k: int| 0 <= k < names.len() && (#[trigger] names[k])@ == name
}

/// The subsequence of rows passing the filter, in storage order.
pub open spec fn filtered_users(s: Seq<UserModel>, f: UsersFilter) -> Seq<UserModel>
    decreases s.len(),
{
    if s.len() == 0 {
        Seq::empty()
    } else {
        let rest = filtered_users(s.drop_last(), f);
        if user_matches_filter(s.last(), f) {
            rest.push(s.last())
        } else {
            rest
        }
    }
}

/// Appending a row extends the filtered subsequence exactly when the row
/// passes the filter.
proof fn lemma_filtered_users_push(s: Seq<UserModel>, u: UserModel, f: UsersFilter)
    ensures
        filtered_users(s.push(u), f) == if user_matches_filter(u, f) {
            filtered_users(s, f).push(u)
        } else {
            filtered_users(s, f)
        },
{
    assert(s.push(u).drop_last() =~= s);
    assert(s.push(u).last() == u);
}

impl View for UserStore {
    type V = Seq<UserModel>;

    closed spec fn view(&self) -> Seq<UserModel> {
        self.users@
    }
}

impl UserStore {
    /// An empty store.
    pub fn new() -> (r: UserStore)
        ensures
            r@ == Seq::<UserModel>::empty(),
            wf_users(r@),
    {
        UserStore { users: Vec::new() }
    }

    /// Number of stored rows.
    pub fn len(&self) -> (r: usize)
        ensures
            r == self@.len(),
    {
        self.users.len()
    }

    /// Position of the row holding `name`, if any.
    fn find_index_by_username(&self, name: &String) -> (r: Option<usize>)
        ensures
            r is Some ==> r.unwrap() < self@.len() && self@[r.unwrap() as int].username@ == name@,
            r is None ==> !username_taken(self@, name@),
    {
        let n = self.users.len();
        let mut i: usize = 0;
        while i < n
            invariant
                i <= n,
                n == self@.len(),
                forall|k: int| 0 <= k < i ==> (#[trigger] self@[k]).username@ != name@,
            decreases n - i,
        {
            if self.users[i].username == *name {
                return Some(i);
            }
            i = i + 1;
        }
        None
    }

    /// Create a row with the given fields and a fresh identifier; its
    /// creation date is `created_at`. Fails with `Conflict`, and stores
    /// nothing, exactly when the username is already held.
    pub fn insert(&mut self, new_user: NewUserDb, created_at: i64) -> (r: Result<
        UserModel,
        UserError,
    >)
        requires
            wf_users(old(self)@),
        ensures
            wf_users(final(self)@),
            r is Ok <==> !username_taken(old(self)@, new_user.username@),
            r is Ok ==> {
                &&& final(self)@ == old(self)@.push(r.unwrap())
                &&& r.unwrap().id == old(self)@.len() as u128
                &&& r.unwrap().username@ == new_user.username@
                &&& r.unwrap().email@ == new_user.email@
                &&& r.unwrap().password_hash@ == new_user.password_hash@
                &&& r.unwrap().is_admin == new_user.is_admin
                &&& r.unwrap().created_at == created_at
            },
            r is Err ==> final(self)@ == old(self)@ && r.unwrap_err() is Conflict,
    {
        match self.find_index_by_username(&new_user.username) {
            Some(_) => Err(UserError::Conflict),
            None => {
                let user = UserModel {
                    id: self.users.len() as u128,
                    username: new_user.username,
                    email: new_user.email,
                    password_hash: new_user.password_hash,
                    is_admin: new_user.is_admin,
                    created_at: created_at,
                };
                let result = user.clone();
                self.users.push(user);
                Ok(result)
            },
        }
    }

    /// The row with this identifier. Fails with `NotFound` exactly when no
    /// row has it.
    pub fn get(&self, id: u128) -> (r: Result<UserModel, UserError>)
        ensures
            r is Ok <==> (id as int) < self@.len(),
            r is Ok ==> r.unwrap() == self@[id as int],
            r is Err ==> r.unwrap_err() == UserError::NotFound(id),
    {
        if id < self.users.len() as u128 {
            Ok(self.users[id as usize].clone())
        } else {
            Err(UserError::NotFound(id))
        }
    }

    /// The row holding this username, if any.
    pub fn find_by_username(&self, username: &String) -> (r: Option<UserModel>)
        requires
            wf_users(self@),
        ensures
            r is Some <==> username_taken(self@, username@),
            r is Some ==> r.unwrap() == self@[username_index(self@, username@)],
    {
        match self.find_index_by_username(username) {
            Some(i) => {
                proof {
                    let j = username_index(self@, username@);
                    assert(self@[i as int].username@ == username@);
                    assert(0 <= j < self@.len() && self@[j].username@ == username@);
                    assert(i == j);
                }
                Some(self.users[i].clone())
            },
            None => None,
        }
    }

    /// All rows passing the filter, in storage order.
    pub fn get_all(&self, filter: UsersFilter) -> (r: Vec<UserModel>)
        ensures
            r@ == filtered_users(self@, filter),
    {
        let mut out: Vec<UserModel> = Vec::new();
        let n = self.users.len();
        let mut i: usize = 0;
        while i < n
            invariant
                i <= n,
                n == self@.len(),
                out@ == filtered_users(self@.take(i as int), filter),
            decreases n - i,
        {
            let matched = self.user_passes_filter(i, &filter);
            if matched {
                out.push(self.users[i].clone());
            }
            proof {
                assert(self@.take(i as int + 1) =~= self@.take(i as int).push(self@[i as int]));
                lemma_filtered_users_push(self@.take(i as int), self@[i as int], filter);
            }
            i = i + 1;
        }
        proof {
            assert(self@.take(n as int) =~= self@);
        }
        out
    }

    /// Whether the row at `i` passes the filter.
    fn user_passes_filter(&self, i: usize, filter: &UsersFilter) -> (r: bool)
        requires
            i < self@.len(),
        ensures
            r == user_matches_filter(self@[i as int], *filter),
    {
        let in_list: bool = match &filter.usernames {
            Some(list) => {
                if list.len() == 0 {
                    true
                } else {
                    let mut k: usize = 0;
                    let mut found = false;
                    while k < list.len()
                        invariant
                            k <= list@.len(),
                            found == exists|m: int|
                                0 <= m < k && (#[trigger] list@[m])@
                                    == self@[i as int].username@,
                            i < self@.len(),
                        decreases list@.len() - k,
                    {
                        if list[k] == self.users[i].username {
                            found = true;
                        }
                        k = k + 1;
                    }
                    found
                }
            },
            None => true,
        };
        let name_ok: bool = match &filter.username {
            Some(name) => self.users[i].username == *name,
            None => true,
        };
        in_list && name_ok
    }

    /// Replace the mutable fields of the row with this identifier; the
    /// identifier and creation date are kept. Fails with `NotFound` exactly
    /// when no row has the identifier, and with `Conflict` exactly when
    /// another row already holds the new username; on failure nothing
    /// changes.
    pub fn update(&mut self, user_id: u128, changes: UpdateUserDb) -> (r: Result<
        UserModel,
        UserError,
    >)
        requires
            wf_users(old(self)@),
        ensures
            wf_users(final(self)@),
            r is Ok <==> (user_id as int) < old(self)@.len() && !username_taken_by_other(
                old(self)@,
                changes.username@,
                user_id,
            ),
            r is Ok ==> {
                &&& final(self)@.len() == old(self)@.len()
                &&& forall|k: int|
                    0 <= k < final(self)@.len() && k != user_id as int ==> final(self)@[k] == old(self)@[k]
                &&& r.unwrap() == final(self)@[user_id as int]
                &&& r.unwrap().id == user_id
                &&& r.unwrap().created_at == old(self)@[user_id as int].created_at
                &&& r.unwrap().username@ == changes.username@
                &&& r.unwrap().email@ == changes.email@
                &&& r.unwrap().password_hash@ == changes.password_hash@
                &&& r.unwrap().is_admin == changes.is_admin
            },
            r is Err ==> final(self)@ == old(self)@,
            r is Err ==> r.unwrap_err() == if (user_id as int) < old(self)@.len() {
                UserError::Conflict
            } else {
                UserError::NotFound(user_id)
            },
    {
        if !(user_id < self.users.len() as u128) {
            return Err(UserError::NotFound(user_id));
        }
        let idx = user_id as usize;
        match self.find_index_by_username(&changes.username) {
            Some(j) => {
                if j != idx {
                    return Err(UserError::Conflict);
                }
            },
            None => {},
        }
        let updated = UserModel {
            id: user_id,
            username: changes.username,
            email: changes.email,
            password_hash: changes.password_hash,
            is_admin: changes.is_admin,
            created_at: self.users[idx].created_at,
        };
        let result = updated.clone();
        self.users[idx] = updated;
        Ok(result)
    }
}

} // verus!
