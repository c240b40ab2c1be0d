use user_tokens::credentials::{hash, verify};

#[test]
fn hash_then_verify_round_trip() {
    let digest = hash("hunter42").expect("hashing succeeds");
    assert!(verify("hunter42", &digest));
    assert!(!verify("hunter43", &digest));
    assert!(!verify("", &digest));
}

#[test]
fn two_hashes_differ_but_both_verify() {
    let first = hash("correct horse battery staple").expect("hashing succeeds");
    let second = hash("correct horse battery staple").expect("hashing succeeds");
    // A fresh random salt is embedded in each digest.
    assert_ne!(first, second);
    assert!(verify("correct horse battery staple", &first));
    assert!(verify("correct horse battery staple", &second));
}

#[test]
fn malformed_digest_never_matches() {
    assert!(!verify("anything", "not-a-phc-string"));
    assert!(!verify("anything", ""));
    assert!(!verify("anything", "$argon2id$v=19$broken"));
}

#[test]
fn digest_is_not_the_plaintext() {
    let digest = hash("plain-password").expect("hashing succeeds");
    assert_ne!(digest, "plain-password");
    assert!(digest.starts_with("$argon2"));
}
