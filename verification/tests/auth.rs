use pharness_api::agents::bearer_token;
use pharness_api::error::ErrorKind;
use pharness_api::hashing::{hex_lower, material_hash_of_text, token_hash, token_matches};

#[test]
fn token_matching_accepts_only_the_exact_token() {
    assert!(token_matches("operator-token", "operator-token"));
    assert!(!token_matches("operator-token", "other-token"));
}

#[test]
fn token_matching_rejects_prefixes_and_empty_tokens() {
    assert!(!token_matches("operator", "operator-token"));
    assert!(!token_matches("operator-token", "operator"));
    assert!(!token_matches("", "operator-token"));
    assert!(token_matches("", ""));
}

#[test]
fn token_hash_is_the_lowercase_sha256_of_the_token() {
    assert_eq!(
        token_hash("abc"),
        "ba7816bf8f01cfea414140de5dae2223b00361a396177a9cb410ff61f20015ad"
    );
    assert_eq!(
        token_hash(""),
        "e3b0c44298fc1c149afbf4c8996fb92427ae41e4649b934ca495991b7852b855"
    );
    assert_eq!(token_hash("abc").len(), 64);
    assert_ne!(token_hash("operator-token"), token_hash("other-token"));
}

#[test]
fn hex_lower_writes_two_lowercase_digits_per_byte() {
    assert_eq!(hex_lower(&[0x00, 0x0f, 0xa0, 0xff]), "000fa0ff");
    assert_eq!(hex_lower(&[]), "");
}

#[test]
fn bearer_token_takes_the_credential_after_the_scheme() {
    assert_eq!(bearer_token(Some("Bearer secret-1")).unwrap(), "secret-1");
}

#[test]
fn bearer_token_refuses_missing_or_malformed_headers() {
    for header in [None, Some("Basic abc"), Some("Bearer "), Some("Bearer    "), Some("bearer abc")] {
        let error = bearer_token(header).unwrap_err();
        assert_eq!(error.kind, ErrorKind::Unauthorized);
        assert_eq!(error.message, "missing bearer credential");
    }
}

#[test]
fn material_hash_prefixes_the_text_digest() {
    assert_eq!(
        material_hash_of_text("abc"),
        "sha256:ba7816bf8f01cfea414140de5dae2223b00361a396177a9cb410ff61f20015ad"
    );
}
