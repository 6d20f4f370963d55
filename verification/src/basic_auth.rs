//! Decoding and checking of HTTP Basic credentials.
//!
//! A `Basic <base64>` header is split into its two words, the payload is
//! base64-decoded and read as UTF-8, the text is split at its first
//! colon, and the two halves are compared against the configured user
//! and password. A malformed header or an undecodable payload is the
//! coarse `TokenInvalid`; decoded text that is not a matching
//! `user:password` pair — including text with no colon at all — is
//! `WrongCredentials`.

use vstd::prelude::*;

use crate::jwt::CredentialError;
use crate::scan::{find_char, find_char_exec, spec_two_words, two_words};

verus! {

/// The bytes that standard base64 decoding (with padding) recovers from
/// `s`, or `None` when `s` is not valid base64.
pub uninterp spec fn base64_decoding(s: Seq<char>) -> Option<Seq<u8>>;

/// Relies on `base64::engine::general_purpose::STANDARD.decode`: the
/// standard alphabet with padding, a function of the input alone.
#[verifier::external_body]
fn base64_decode(s: &str) -> (r: Option<Vec<u8>>)
    ensures
        r is Some <==> base64_decoding(s@) is Some,
        r matches Some(v) ==> base64_decoding(s@) == Some(v@),
{
    base64::Engine::decode(&base64::engine::general_purpose::STANDARD, s.as_bytes()).ok()
}

/// Relies on `String::from_utf8` (std): it succeeds exactly on valid
/// UTF-8 and returns the decoded text.
#[verifier::external_body]
fn bytes_to_string(bytes: Vec<u8>) -> (r: Option<String>)
    ensures
        r is Some <==> vstd::utf8::valid_utf8(bytes@),
        r matches Some(s) ==> s@ == vstd::utf8::decode_utf8(bytes@),
{
    String::from_utf8(bytes).ok()
}

/// The outcome of comparing a decoded `user:password` text against the
/// configured pair: success exactly when the text has a colon, the half
/// before the first colon is `user`, and the half after it is `pass`;
/// everything else — a wrong pair, or text with no colon at all — is
/// `WrongCredentials`.
pub open spec fn credentials_outcome(decoded: Seq<char>, user: Seq<char>, pass: Seq<char>) -> Result<
    (),
    CredentialError,
> {
    let i = find_char(decoded, ':', 0);
    if i < decoded.len() && decoded.subrange(0, i) == user && decoded.subrange(
        i + 1,
        decoded.len() as int,
    ) == pass {
        Ok(())
    } else {
        Err(CredentialError::WrongCredentials)
    }
}

/// The outcome of checking a whole `Basic <base64>` header value
/// against the configured pair.
pub open spec fn basic_outcome(header: Seq<char>, user: Seq<char>, pass: Seq<char>) -> Result<
    (),
    CredentialError,
> {
    match spec_two_words(header) {
        None => Err(CredentialError::TokenInvalid),
        Some(w) => {
            if w.0 != "Basic"@ {
                Err(CredentialError::TokenInvalid)
            } else {
                match base64_decoding(w.1) {
                    None => Err(CredentialError::TokenInvalid),
                    Some(bytes) => {
                        if !vstd::utf8::valid_utf8(bytes) {
                            Err(CredentialError::TokenInvalid)
                        } else {
                            credentials_outcome(vstd::utf8::decode_utf8(bytes), user, pass)
                        }
                    },
                }
            }
        },
    }
}

/// Splits the decoded credential text at its first colon and compares
/// the halves against the configured user and password.
pub fn check_credentials(decoded: &str, user: &str, pass: &str) -> (r: Result<(), CredentialError>)
    ensures
        r == credentials_outcome(decoded@, user@, pass@),
{
    let len = decoded.unicode_len();
    let i = find_char_exec(decoded, ':', 0, len);
    if i == len {
        return Err(CredentialError::WrongCredentials);
    }
    let got_user = decoded.substring_char(0, i).to_owned();
    let got_pass = decoded.substring_char(i + 1, len).to_owned();
    if got_user == user.to_owned() && got_pass == pass.to_owned() {
        Ok(())
    } else {
        Err(CredentialError::WrongCredentials)
    }
}

/// Decodes a `Basic <base64>` authorization header value and checks the
/// credential pair inside it against the configured `user` and `pass`,
/// as `basic_outcome` describes.
pub fn decode_basic(header_value: &str, user: &str, pass: &str) -> (r: Result<(), CredentialError>)
    ensures
        r == basic_outcome(header_value@, user@, pass@),
{
    let words = match two_words(header_value) {
        None => {
            return Err(CredentialError::TokenInvalid);
        },
        Some(w) => w,
    };
    if !(words.0 == String::from_str("Basic")) {
        return Err(CredentialError::TokenInvalid);
    }
    let bytes = match base64_decode(words.1.as_str()) {
        None => {
            return Err(CredentialError::TokenInvalid);
        },
        Some(b) => b,
    };
    let decoded = match bytes_to_string(bytes) {
        None => {
            return Err(CredentialError::TokenInvalid);
        },
        Some(s) => s,
    };
    check_credentials(decoded.as_str(), user, pass)
}

} // verus!
