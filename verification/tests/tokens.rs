use user_tokens::handlers::{create_token, CreatTokenRequest};
use user_tokens::ids::parse_token_id;
use user_tokens::models::{TokenError, TOKEN_TTL_SECONDS};
use user_tokens::token_store::{TokenStore, TokensFilter, UpdateTokenDb};

const NOW: i64 = 1_700_000_000;

#[test]
fn issue_and_validate() {
    let mut store = TokenStore::new();
    let issued = store.issue(7, "refresh-secret", "10.0.0.1", "agent/1.0", NOW)
        .expect("issuance succeeds");
    assert_eq!(issued.id, 0);
    assert_eq!(issued.user_id, 7);
    assert_eq!(issued.created_at, NOW);
    assert_eq!(issued.expires_at, NOW + TOKEN_TTL_SECONDS);
    assert!(issued.revoked_at.is_none());
    assert!(issued.replaced_by.is_none());
    assert!(issued.previous_token_id.is_none());
    // Only the digest is stored, never the secret.
    assert_ne!(issued.token_hash, "refresh-secret");

    let validated = store.validate("refresh-secret", NOW + 1).expect("token is usable");
    assert_eq!(validated.user_id, 7);
    assert_eq!(validated.id, 0);
}

#[test]
fn validate_unknown_token() {
    let store = TokenStore::new();
    let err = store.validate("never-issued", NOW).unwrap_err();
    assert!(matches!(err, TokenError::UnknownToken));
    assert_eq!(err.status_code(), 401);
}

#[test]
fn expired_token_fails_validation() {
    let mut store = TokenStore::new();
    store.issue(7, "short-lived", "10.0.0.1", "agent/1.0", NOW).expect("issuance succeeds");
    // One hour and one second later the token is past its window.
    let err = store.validate("short-lived", NOW + TOKEN_TTL_SECONDS + 1).unwrap_err();
    assert!(matches!(err, TokenError::Expired));
    // Sixty-one minutes later as well.
    let err = store.validate("short-lived", NOW + 61 * 60).unwrap_err();
    assert!(matches!(err, TokenError::Expired));
    // At the boundary it is still usable.
    assert!(store.validate("short-lived", NOW + TOKEN_TTL_SECONDS).is_ok());
}

#[test]
fn revoked_token_fails_before_expiry() {
    let mut store = TokenStore::new();
    let issued = store.issue(7, "to-revoke", "10.0.0.1", "agent/1.0", NOW)
        .expect("issuance succeeds");
    let changes = UpdateTokenDb {
        expires_at: issued.expires_at,
        revoked_at: NOW + 10,
        replaced_by: None,
    };
    let revoked = store.update(issued.id, changes).expect("revocation succeeds");
    assert_eq!(revoked.revoked_at, Some(NOW + 10));

    // Well before expiry, yet unusable.
    let err = store.validate("to-revoke", NOW + 20).unwrap_err();
    assert!(matches!(err, TokenError::Revoked));
}

#[test]
fn update_rejects_bad_window_and_missing_row() {
    let mut store = TokenStore::new();
    let issued = store.issue(7, "windowed", "10.0.0.1", "agent/1.0", NOW)
        .expect("issuance succeeds");
    let bad = UpdateTokenDb { expires_at: issued.created_at, revoked_at: NOW, replaced_by: None };
    let err = store.update(issued.id, bad).unwrap_err();
    assert!(matches!(err, TokenError::InvalidInput));
    assert_eq!(err.status_code(), 400);

    let missing = UpdateTokenDb { expires_at: NOW + 1, revoked_at: NOW, replaced_by: None };
    let err = store.update(55, missing).unwrap_err();
    assert!(matches!(err, TokenError::NotFound(55)));
}

#[test]
fn rotation_links_the_chain() {
    let mut store = TokenStore::new();
    let a = store.issue(7, "secret-a", "10.0.0.1", "agent/1.0", NOW).expect("issuance succeeds");
    let b = store.rotate(a.id, "secret-b", NOW + 100).expect("rotation succeeds");

    let a_after = store.get(a.id).expect("old row kept");
    assert_eq!(a_after.revoked_at, Some(NOW + 100));
    assert_eq!(a_after.replaced_by, Some(b.id));
    assert_eq!(b.previous_token_id, Some(a.id));
    assert_eq!(b.user_id, a.user_id);
    assert_eq!(b.ip_address, a.ip_address);
    assert_eq!(b.user_agent, a.user_agent);
    assert_eq!(b.created_at, NOW + 100);
    assert_eq!(b.expires_at, NOW + 100 + TOKEN_TTL_SECONDS);

    // Exactly one rotation may succeed per source token.
    let err = store.rotate(a.id, "secret-c", NOW + 200).unwrap_err();
    assert!(matches!(err, TokenError::Conflict));
    assert_eq!(err.status_code(), 409);
    assert_eq!(store.len(), 2);
}

#[test]
fn rotate_missing_token_not_found() {
    let mut store = TokenStore::new();
    let err = store.rotate(3, "whatever", NOW).unwrap_err();
    assert!(matches!(err, TokenError::NotFound(3)));
}

#[test]
fn end_to_end_lifecycle() {
    let mut store = TokenStore::new();

    // Issue for user 9 and validate immediately: usable, returns the user.
    store.issue(9, "first-secret", "192.0.2.1", "agent/2.0", NOW).expect("issuance succeeds");
    let ok = store.validate("first-secret", NOW).expect("token is usable");
    assert_eq!(ok.user_id, 9);

    // Sixty-one minutes later the same token is expired.
    let err = store.validate("first-secret", NOW + 61 * 60).unwrap_err();
    assert!(matches!(err, TokenError::Expired));

    // Issue another token, rotate it once: the original secret is revoked,
    // the new secret is usable.
    let a = store.issue(9, "second-secret", "192.0.2.1", "agent/2.0", NOW)
        .expect("issuance succeeds");
    store.rotate(a.id, "third-secret", NOW + 5).expect("rotation succeeds");
    let err = store.validate("second-secret", NOW + 6).unwrap_err();
    assert!(matches!(err, TokenError::Revoked));
    let ok = store.validate("third-secret", NOW + 6).expect("rotated token is usable");
    assert_eq!(ok.user_id, 9);
    assert_eq!(ok.previous_token_id, Some(a.id));
}

#[test]
fn duplicate_digest_conflicts() {
    let mut store = TokenStore::new();
    store.issue(1, "same-secret", "10.0.0.1", "agent/1.0", NOW).expect("issuance succeeds");
    let err = store.issue(2, "same-secret", "10.0.0.2", "agent/1.1", NOW).unwrap_err();
    assert!(matches!(err, TokenError::Conflict));
    assert_eq!(store.len(), 1);
}

#[test]
fn create_token_returns_the_raw_secret_once() {
    let mut store = TokenStore::new();
    let request = CreatTokenRequest {
        user_id: 4,
        user_agent: "reported/1.0".to_string(),
        ip_address: "203.0.113.9".to_string(),
        token: "bearer-secret".to_string(),
    };
    let response = create_token(&mut store, request, "203.0.113.7", "observed/2.0")
        .expect("issuance succeeds");
    assert_eq!(response.user_id, 4);
    // The response carries the secret itself, not the stored digest.
    assert_eq!(response.token, "bearer-secret");
    let stored = store.get(response.id).expect("row stored");
    assert_ne!(stored.token_hash, "bearer-secret");
    // Provenance comes from the transport, not from the request body.
    assert_eq!(stored.ip_address, "203.0.113.7");
    assert_eq!(stored.user_agent, "observed/2.0");
}

#[test]
fn get_all_applies_filters() {
    let mut store = TokenStore::new();
    store.issue(1, "t-1", "10.0.0.1", "agent", NOW).expect("issuance succeeds");
    store.issue(1, "t-2", "10.0.0.2", "agent", NOW).expect("issuance succeeds");
    store.issue(2, "t-3", "10.0.0.1", "agent", NOW).expect("issuance succeeds");

    let all = store.get_all(TokensFilter {
        user_id: None,
        ip_address: None,
        user_agent: None,
        expires_at: None,
        get_chained_tokens: None,
    });
    assert_eq!(all.len(), 3);

    let of_user = store.get_all(TokensFilter {
        user_id: Some(1),
        ip_address: None,
        user_agent: None,
        expires_at: None,
        get_chained_tokens: None,
    });
    assert_eq!(of_user.len(), 2);

    let of_ip = store.get_all(TokensFilter {
        user_id: None,
        ip_address: Some("10.0.0.1".to_string()),
        user_agent: None,
        expires_at: None,
        get_chained_tokens: None,
    });
    assert_eq!(of_ip.len(), 2);

    // An empty address does not narrow the result.
    let empty_ip = store.get_all(TokensFilter {
        user_id: None,
        ip_address: Some(String::new()),
        user_agent: None,
        expires_at: None,
        get_chained_tokens: None,
    });
    assert_eq!(empty_ip.len(), 3);

    let both = store.get_all(TokensFilter {
        user_id: Some(1),
        ip_address: Some("10.0.0.1".to_string()),
        user_agent: None,
        expires_at: None,
        get_chained_tokens: None,
    });
    assert_eq!(both.len(), 1);
}

#[test]
fn parse_token_id_reads_uuids() {
    let id = parse_token_id("67e55044-10b1-426f-9247-bb680e5fe0c8").expect("valid uuid");
    assert_eq!(id, 0x67e5504410b1426f9247bb680e5fe0c8);

    let err = parse_token_id("not-a-uuid").unwrap_err();
    match &err {
        TokenError::InvalidUuid(text) => assert_eq!(text, "not-a-uuid"),
        other => panic!("unexpected error {:?}", other),
    }
    assert_eq!(err.status_code(), 400);
}

#[test]
fn token_error_status_table() {
    assert_eq!(TokenError::InternalServerError.status_code(), 500);
    assert_eq!(TokenError::NotFound(1).status_code(), 404);
    assert_eq!(TokenError::InvalidUuid("x".to_string()).status_code(), 400);
    assert_eq!(TokenError::InvalidInput.status_code(), 400);
    assert_eq!(TokenError::UnknownToken.status_code(), 401);
    assert_eq!(TokenError::Expired.status_code(), 401);
    assert_eq!(TokenError::Revoked.status_code(), 401);
    assert_eq!(TokenError::Conflict.status_code(), 409);
}
