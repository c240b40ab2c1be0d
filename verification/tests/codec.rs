use user_tokens::codec::hash_token;

#[test]
fn digest_is_deterministic() {
    let a = hash_token("session-secret-123");
    let b = hash_token("session-secret-123");
    assert_eq!(a, b);
}

#[test]
fn digest_known_vector() {
    // SHA-256("abc"), lowercase hex.
    assert_eq!(
        hash_token("abc"),
        "ba7816bf8f01cfea414140de5dae2223b00361a396177a9cb410ff61f20015ad"
    );
}

#[test]
fn digest_empty_input() {
    // SHA-256 of the empty string, lowercase hex.
    assert_eq!(
        hash_token(""),
        "e3b0c44298fc1c149afbf4c8996fb92427ae41e4649b934ca495991b7852b855"
    );
}

#[test]
fn digest_distinguishes_inputs() {
    assert_ne!(hash_token("secret-a"), hash_token("secret-b"));
}
