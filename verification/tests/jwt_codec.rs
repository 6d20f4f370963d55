//! Bearer-token codec behaviour: issue, verify, expiry, and secret
//! isolation.

use authkit::jwt::{create_token, parse_token, CredentialError};

const SECRET_A: &[u8] = b"left-signing-secret";
const SECRET_B: &[u8] = b"other-signing-secret";

#[test]
fn issue_then_verify_within_ttl_returns_subject() {
    let now = 1_700_000_000;
    let token = create_token("alice", SECRET_A, 10, now).unwrap();
    let subject = parse_token(&token, SECRET_A, now + 599).unwrap();
    assert_eq!(subject, "alice");
}

#[test]
fn issue_then_verify_at_issue_time_returns_subject() {
    let now = 1_700_000_000;
    let token = create_token("bob", SECRET_A, 1, now).unwrap();
    assert_eq!(parse_token(&token, SECRET_A, now).unwrap(), "bob");
}

#[test]
fn verify_fails_after_ttl_has_elapsed() {
    let now = 1_700_000_000;
    let token = create_token("alice", SECRET_A, 10, now).unwrap();
    let r = parse_token(&token, SECRET_A, now + 600);
    assert_eq!(r, Err(CredentialError::TokenInvalid));
    let r = parse_token(&token, SECRET_A, now + 3600);
    assert_eq!(r, Err(CredentialError::TokenInvalid));
}

#[test]
fn verify_fails_before_not_before_time() {
    let now = 1_700_000_000;
    let token = create_token("alice", SECRET_A, 10, now).unwrap();
    let r = parse_token(&token, SECRET_A, now - 1);
    assert_eq!(r, Err(CredentialError::TokenInvalid));
}

#[test]
fn empty_subject_always_fails_with_empty_subject() {
    let r = create_token("", SECRET_A, 10, 1_700_000_000);
    assert_eq!(r, Err(CredentialError::EmptySubject));
    let r = create_token("", SECRET_B, 1, 0);
    assert_eq!(r, Err(CredentialError::EmptySubject));
}

#[test]
fn token_signed_with_one_secret_never_verifies_with_another() {
    // Round-trip isolation is the MAC's unforgeability — a cryptographic
    // assumption the contracts deliberately do not state (HMAC admits
    // equivalent keys), checked here at runtime on genuinely distinct
    // keys.
    let now = 1_700_000_000;
    let token = create_token("alice", SECRET_A, 10, now).unwrap();
    let r = parse_token(&token, SECRET_B, now + 1);
    assert_eq!(r, Err(CredentialError::TokenInvalid));
}

#[test]
fn malformed_tokens_are_invalid() {
    let now = 1_700_000_000;
    assert_eq!(
        parse_token("not-a-token", SECRET_A, now),
        Err(CredentialError::TokenInvalid)
    );
    assert_eq!(parse_token("", SECRET_A, now), Err(CredentialError::TokenInvalid));
    assert_eq!(
        parse_token("a.b.c", SECRET_A, now),
        Err(CredentialError::TokenInvalid)
    );
}

#[test]
fn tampered_token_is_invalid() {
    let now = 1_700_000_000;
    let token = create_token("alice", SECRET_A, 10, now).unwrap();
    let mut tampered = token.clone();
    tampered.pop();
    tampered.push('x');
    assert_eq!(
        parse_token(&tampered, SECRET_A, now),
        Err(CredentialError::TokenInvalid)
    );
}
