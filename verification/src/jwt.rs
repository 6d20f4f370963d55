//! Credential codec: issues and checks signed bearer tokens.
//!
//! A token carries the claims `sub` (the subject), `iat` (issued at),
//! `nbf` (not valid before) and `exp` (expires at), all timestamps in
//! seconds, and is signed with a symmetric HMAC-SHA256 key. Signing and
//! signature checking are done by the `jsonwebtoken` crate; expiry is
//! checked here, against an explicit clock value, so that the whole
//! accept/reject decision is verified.

use vstd::prelude::*;

verus! {

/// Claims carried by a bearer token.
pub struct TokenClaims {
    pub sub: String,
    pub iat: u64,
    pub exp: u64,
    pub nbf: u64,
}

/// Failures of the credential codec. Signature, structure and expiry
/// failures are deliberately collapsed into `TokenInvalid`, so a caller
/// cannot tell which one occurred.
#[derive(Clone, Copy, Debug, PartialEq, Eq, Structural)]
pub enum CredentialError {
    /// The subject handed to token issuance was empty.
    EmptySubject,
    /// The token is malformed, wrongly signed, expired or not yet valid.
    TokenInvalid,
    /// A decoded Basic credential does not match the configured pair.
    WrongCredentials,
}

/// The serialized signed token that HMAC-SHA256 signing produces for
/// these claims under this secret.
pub uninterp spec fn jwt_token_of(
    sub: Seq<char>,
    iat: u64,
    exp: u64,
    nbf: u64,
    secret: Seq<u8>,
) -> Seq<char>;

/// The claims `(sub, iat, exp, nbf)` that signature checking recovers
/// from a serialized token under this secret, or `None` when the token
/// is malformed or was not signed with this secret.
pub uninterp spec fn jwt_claims_of(token: Seq<char>, secret: Seq<u8>) -> Option<
    (Seq<char>, u64, u64, u64),
>;

/// Relies on `jsonwebtoken::encode` with the default (HS256) header.
/// The result is the HMAC-SHA256-signed encoding of the claims, a
/// function of the claims and the secret alone; decoding it with the
/// same secret yields the claims back. For an HMAC key the crate's
/// `encode` cannot fail.
#[verifier::external_body]
fn jwt_encode(sub: &str, iat: u64, exp: u64, nbf: u64, secret: &[u8]) -> (r: String)
    ensures
        r@ == jwt_token_of(sub@, iat, exp, nbf, secret@),
        jwt_claims_of(r@, secret@) == Some((sub@, iat, exp, nbf)),
{
    let mut claims = serde_json::Map::new();
    claims.insert("sub".to_string(), serde_json::Value::from(sub));
    claims.insert("iat".to_string(), serde_json::Value::from(iat));
    claims.insert("exp".to_string(), serde_json::Value::from(exp));
    claims.insert("nbf".to_string(), serde_json::Value::from(nbf));
    jsonwebtoken::encode(
        &jsonwebtoken::Header::default(),
        &serde_json::Value::Object(claims),
        &jsonwebtoken::EncodingKey::from_secret(secret),
    ).unwrap()
}

/// Relies on `jsonwebtoken::decode` over HS256 with time validation
/// turned off, so the outcome is a function of the token and the secret
/// alone. Success means the token's signature verifies under this
/// secret. That a token signed under one secret fails under another is
/// the unforgeability of the MAC — a cryptographic assumption, not
/// stated here: HMAC admits equivalent keys (a key and its zero-padding
/// sign identically), so no universal isolation clause is true of the
/// code. The property is exercised by a runtime test instead.
#[verifier::external_body]
fn jwt_decode(token: &str, secret: &[u8]) -> (r: Option<TokenClaims>)
    ensures
        r is Some <==> jwt_claims_of(token@, secret@) is Some,
        r matches Some(c) ==> jwt_claims_of(token@, secret@) == Some((c.sub@, c.iat, c.exp, c.nbf)),
{
    let mut validation = jsonwebtoken::Validation::new(jsonwebtoken::Algorithm::HS256);
    validation.validate_exp = false;
    validation.validate_aud = false;
    validation.required_spec_claims = std::collections::HashSet::new();
    let key = jsonwebtoken::DecodingKey::from_secret(secret);
    let data = jsonwebtoken::decode::<serde_json::Value>(token, &key, &validation).ok()?;
    Some(TokenClaims {
        sub: data.claims.get("sub")?.as_str()?.to_string(),
        iat: data.claims.get("iat")?.as_u64()?,
        exp: data.claims.get("exp")?.as_u64()?,
        nbf: data.claims.get("nbf")?.as_u64()?,
    })
}

/// Whether a token is accepted under `secret` at time `now`: its
/// signature verifies, it is not used before `nbf`, and it is used
/// strictly before `exp`.
pub open spec fn token_accepted(token: Seq<char>, secret: Seq<u8>, now: u64) -> bool {
    match jwt_claims_of(token, secret) {
        Some(c) => c.3 <= now && now < c.2,
        None => false,
    }
}

/// The subject of a token whose signature verifies under `secret`.
pub open spec fn token_subject(token: Seq<char>, secret: Seq<u8>) -> Seq<char> {
    match jwt_claims_of(token, secret) {
        Some(c) => c.0,
        None => Seq::empty(),
    }
}

/// Issues a signed bearer token for `user_id`, valid from `now` for
/// `expires_in_minutes` minutes. Fails exactly when the subject is
/// empty.
pub fn create_token(user_id: &str, secret: &[u8], expires_in_minutes: u64, now: u64) -> (r: Result<
    String,
    CredentialError,
>)
    requires
        now + expires_in_minutes * 60 <= u64::MAX,
    ensures
        r is Err <==> user_id@.len() == 0,
        r matches Err(e) ==> e == CredentialError::EmptySubject,
        r matches Ok(t) ==> {
            &&& t@ == jwt_token_of(
                user_id@,
                now,
                (now + expires_in_minutes * 60) as u64,
                now,
                secret@,
            )
            &&& jwt_claims_of(t@, secret@) == Some(
                (user_id@, now, (now + expires_in_minutes * 60) as u64, now),
            )
        },
{
    if user_id.unicode_len() == 0 {
        return Err(CredentialError::EmptySubject);
    }
    let exp = now + expires_in_minutes * 60;
    Ok(jwt_encode(user_id, now, exp, now, secret))
}

/// Checks a bearer token under `secret` at time `now` and returns its
/// subject. Accepts exactly the tokens whose signature verifies under
/// `secret` and whose claims put `now` inside `[nbf, exp)`; every
/// failure surfaces as the single coarse `TokenInvalid` error. That a
/// token signed under a different secret is rejected is the MAC's
/// unforgeability — a cryptographic assumption covered by a runtime
/// test, not a clause proved here.
pub fn parse_token(token: &str, secret: &[u8], now: u64) -> (r: Result<String, CredentialError>)
    ensures
        r is Ok <==> token_accepted(token@, secret@, now),
        r matches Ok(s) ==> s@ == token_subject(token@, secret@),
        r matches Err(e) ==> e == CredentialError::TokenInvalid,
{
    match jwt_decode(token, secret) {
        None => Err(CredentialError::TokenInvalid),
        Some(claims) => {
            if claims.nbf <= now && now < claims.exp {
                Ok(claims.sub)
            } else {
                Err(CredentialError::TokenInvalid)
            }
        },
    }
}

/// For a token issued for subject `sub` at time `iat` with expiry
/// `exp` (as `create_token`'s contract states of its result), checking
/// it at time `now` under the same secret succeeds exactly when
/// `iat <= now < exp`, and then returns `sub` — so a fresh token
/// verifies until its time-to-live has elapsed and fails afterwards.
pub proof fn lemma_issue_then_verify(
    sub: Seq<char>,
    secret: Seq<u8>,
    token: Seq<char>,
    iat: u64,
    exp: u64,
    now: u64,
)
    requires
        jwt_claims_of(token, secret) == Some((sub, iat, exp, iat)),
    ensures
        token_accepted(token, secret, now) <==> iat <= now && now < exp,
        token_accepted(token, secret, now) ==> token_subject(token, secret) == sub,
{
}

} // verus!

