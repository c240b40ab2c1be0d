use user_tokens::handlers::{
    create_user, get_user, list_users, login_user, patch_user, CreatUserRequest, LoginUserRequest,
    PatchUserRequest,
};
use user_tokens::models::UserError;
use user_tokens::user_store::{UserStore, UsersFilter};

fn new_user(username: &str, email: &str, password: &str) -> CreatUserRequest {
    CreatUserRequest {
        username: username.to_string(),
        email: email.to_string(),
        password: password.to_string(),
    }
}

#[test]
fn create_and_get_user() {
    let mut store = UserStore::new();
    let created = create_user(&mut store, new_user("alice", "alice@example.com", "pw-1"), 19000)
        .expect("creation succeeds");
    assert_eq!(created.id, 0);
    assert_eq!(created.username, "alice");
    assert_eq!(created.email, "alice@example.com");
    assert_eq!(created.created_at, 19000);

    let fetched = get_user(&store, created.id).expect("user exists");
    assert_eq!(fetched.username, "alice");
    assert_eq!(fetched.email, "alice@example.com");
}

#[test]
fn get_user_not_found() {
    let store = UserStore::new();
    let err = get_user(&store, 42).unwrap_err();
    assert!(matches!(err, UserError::NotFound(42)));
    assert_eq!(err.status_code(), 404);
}

#[test]
fn duplicate_username_conflicts() {
    let mut store = UserStore::new();
    create_user(&mut store, new_user("alice", "a@example.com", "pw-1"), 19000)
        .expect("creation succeeds");
    let err = create_user(&mut store, new_user("alice", "b@example.com", "pw-2"), 19001)
        .unwrap_err();
    assert!(matches!(err, UserError::Conflict));
    assert_eq!(err.status_code(), 409);
    assert_eq!(store.len(), 1);
}

#[test]
fn login_succeeds_with_correct_credentials() {
    let mut store = UserStore::new();
    create_user(&mut store, new_user("alice", "a@example.com", "pw-1"), 19000)
        .expect("creation succeeds");
    let login = LoginUserRequest { username: "alice".to_string(), password: "pw-1".to_string() };
    let user = login_user(&store, login).expect("login succeeds");
    assert_eq!(user.id, 0);
    assert_eq!(user.username, "alice");
}

#[test]
fn login_failures_are_indistinguishable() {
    let mut store = UserStore::new();
    create_user(&mut store, new_user("alice", "a@example.com", "pw-1"), 19000)
        .expect("creation succeeds");

    // Correct username, wrong password.
    let wrong_password = login_user(
        &store,
        LoginUserRequest { username: "alice".to_string(), password: "wrong".to_string() },
    )
    .unwrap_err();
    // Unknown username.
    let unknown_user = login_user(
        &store,
        LoginUserRequest { username: "mallory".to_string(), password: "pw-1".to_string() },
    )
    .unwrap_err();

    assert!(matches!(&wrong_password, UserError::InvalidCredentials(name) if name == "alice"));
    assert!(matches!(&unknown_user, UserError::InvalidCredentials(name) if name == "mallory"));
    assert_eq!(wrong_password.status_code(), unknown_user.status_code());
    assert_eq!(wrong_password.status_code(), 401);
    assert_eq!(
        wrong_password.message(),
        "User with username alice and provided password has not been found"
    );
    assert_eq!(
        unknown_user.message(),
        "User with username mallory and provided password has not been found"
    );
}

#[test]
fn patch_user_updates_fields() {
    let mut store = UserStore::new();
    create_user(&mut store, new_user("alice", "a@example.com", "pw-1"), 19000)
        .expect("creation succeeds");
    let patch = PatchUserRequest {
        username: Some("alicia".to_string()),
        email: None,
        password: Some("pw-2".to_string()),
    };
    let updated = patch_user(&mut store, 0, patch).expect("patch succeeds");
    assert_eq!(updated.username, "alicia");
    assert_eq!(updated.email, "a@example.com");
    assert_eq!(updated.created_at, 19000);

    // The old password no longer logs in; the new one does.
    let old_login = login_user(
        &store,
        LoginUserRequest { username: "alicia".to_string(), password: "pw-1".to_string() },
    );
    assert!(old_login.is_err());
    let new_login = login_user(
        &store,
        LoginUserRequest { username: "alicia".to_string(), password: "pw-2".to_string() },
    );
    assert!(new_login.is_ok());
}

#[test]
fn patch_user_not_found() {
    let mut store = UserStore::new();
    let patch = PatchUserRequest { username: None, email: None, password: None };
    let err = patch_user(&mut store, 9, patch).unwrap_err();
    assert!(matches!(err, UserError::NotFound(9)));
}

#[test]
fn patch_username_conflict() {
    let mut store = UserStore::new();
    create_user(&mut store, new_user("alice", "a@example.com", "pw-1"), 19000)
        .expect("creation succeeds");
    create_user(&mut store, new_user("bob", "b@example.com", "pw-2"), 19000)
        .expect("creation succeeds");
    let patch = PatchUserRequest {
        username: Some("alice".to_string()),
        email: None,
        password: None,
    };
    let err = patch_user(&mut store, 1, patch).unwrap_err();
    assert!(matches!(err, UserError::Conflict));
}

#[test]
fn list_users_applies_filters() {
    let mut store = UserStore::new();
    create_user(&mut store, new_user("alice", "a@example.com", "pw-1"), 19000)
        .expect("creation succeeds");
    create_user(&mut store, new_user("bob", "b@example.com", "pw-2"), 19000)
        .expect("creation succeeds");
    create_user(&mut store, new_user("carol", "c@example.com", "pw-3"), 19000)
        .expect("creation succeeds");

    let all = list_users(&store, UsersFilter { usernames: None, username: None });
    assert_eq!(all.users.len(), 3);

    let pair = list_users(
        &store,
        UsersFilter {
            usernames: Some(vec!["alice".to_string(), "carol".to_string()]),
            username: None,
        },
    );
    assert_eq!(pair.users.len(), 2);
    assert_eq!(pair.users[0].username, "alice");
    assert_eq!(pair.users[1].username, "carol");

    let single = list_users(
        &store,
        UsersFilter { usernames: None, username: Some("bob".to_string()) },
    );
    assert_eq!(single.users.len(), 1);
    assert_eq!(single.users[0].email, "b@example.com");

    // An empty username list does not narrow the result.
    let unfiltered = list_users(
        &store,
        UsersFilter { usernames: Some(Vec::new()), username: None },
    );
    assert_eq!(unfiltered.users.len(), 3);
}

#[test]
fn error_status_table() {
    assert_eq!(UserError::InternalServerError.status_code(), 500);
    assert_eq!(UserError::PasswordHashError.status_code(), 500);
    assert_eq!(UserError::NotFound(1).status_code(), 404);
    assert_eq!(UserError::InvalidCredentials("x".to_string()).status_code(), 401);
    assert_eq!(UserError::Conflict.status_code(), 409);
}
