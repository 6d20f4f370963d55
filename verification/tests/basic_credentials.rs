//! Basic-credential decoding against a configured user/password pair.

use authkit::basic_auth::decode_basic;
use authkit::error::ErrorMessage;
use authkit::identity::auth_basic;
use authkit::jwt::CredentialError;

#[test]
fn correct_basic_credentials_are_accepted() {
    // "dXNlcjpwYXNz" is the base64 of "user:pass".
    let r = decode_basic("Basic dXNlcjpwYXNz", "user", "pass");
    assert_eq!(r, Ok(()));
}

#[test]
fn wrong_password_fails_with_wrong_credentials() {
    let r = decode_basic("Basic dXNlcjpwYXNz", "user", "other");
    assert_eq!(r, Err(CredentialError::WrongCredentials));
    let r = decode_basic("Basic dXNlcjpwYXNz", "admin", "pass");
    assert_eq!(r, Err(CredentialError::WrongCredentials));
}

#[test]
fn malformed_basic_headers_are_invalid() {
    assert_eq!(
        decode_basic("Bearer dXNlcjpwYXNz", "user", "pass"),
        Err(CredentialError::TokenInvalid)
    );
    assert_eq!(
        decode_basic("Basic", "user", "pass"),
        Err(CredentialError::TokenInvalid)
    );
    assert_eq!(
        decode_basic("Basic a b", "user", "pass"),
        Err(CredentialError::TokenInvalid)
    );
    assert_eq!(
        decode_basic("Basic !!!not-base64!!!", "user", "pass"),
        Err(CredentialError::TokenInvalid)
    );
}

#[test]
fn payload_without_colon_is_wrong_credentials() {
    // "dXNlcnBhc3M" is the base64 of "userpass": decodable, but not a
    // user:password pair.
    assert_eq!(
        decode_basic("Basic dXNlcnBhc3M=", "user", "pass"),
        Err(CredentialError::WrongCredentials)
    );
}

#[test]
fn password_may_contain_a_colon() {
    // "dXNlcjpwYTpzcw==" is the base64 of "user:pa:ss": the text is
    // split at its first colon only.
    assert_eq!(decode_basic("Basic dXNlcjpwYTpzcw==", "user", "pa:ss"), Ok(()));
}

#[test]
fn missing_or_empty_header_is_token_not_provided() {
    assert_eq!(
        auth_basic(None, "user", "pass"),
        Err(ErrorMessage::TokenNotProvided)
    );
    let blank = String::from("   ");
    assert_eq!(
        auth_basic(Some(&blank), "user", "pass"),
        Err(ErrorMessage::TokenNotProvided)
    );
}

#[test]
fn auth_basic_maps_failures_onto_public_errors() {
    let good = String::from("Basic dXNlcjpwYXNz");
    assert_eq!(auth_basic(Some(&good), "user", "pass"), Ok(()));
    assert_eq!(
        auth_basic(Some(&good), "user", "nope"),
        Err(ErrorMessage::WrongCredentials)
    );
    let bad = String::from("Basic ???");
    assert_eq!(
        auth_basic(Some(&bad), "user", "pass"),
        Err(ErrorMessage::TokenInvalid)
    );
}
