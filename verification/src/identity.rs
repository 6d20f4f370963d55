//! The identity resolver: turns one request's credential into an
//! authenticated identity, or fails the request.
//!
//! The credential is taken from the session cookie when one is present,
//! else from the authorization header, which may carry a `Bearer `
//! prefix; the bearer token is checked, its subject parsed as a UUID,
//! and the user resolved in the store. A stale or deleted user is the
//! same terminal failure as an invalid token from the caller's point of
//! view.

use vstd::prelude::*;

use crate::error::ErrorMessage;
use crate::jwt::{parse_token, token_accepted, token_subject};
use crate::permission::AuthenticatedUser;
use crate::scan::{spec_all_spaces, spec_two_words, all_spaces, two_words};
use crate::store::{UserStore, UserView};

verus! {

/// Failures to authenticate a request.
#[derive(Clone, Copy, Debug, PartialEq, Eq, Structural)]
pub enum AuthError {
    /// No credential, or an empty one, came with the request.
    TokenNotProvided,
    /// The credential is malformed, wrongly signed, expired, or its
    /// subject is not a user id.
    TokenInvalid,
    /// The token verified but the user it names no longer exists.
    UserNoLongerExist,
}

impl AuthError {
    /// The public error this failure is reported as.
    pub fn to_error_message(&self) -> (r: ErrorMessage)
        ensures
            self == AuthError::TokenNotProvided ==> r == ErrorMessage::TokenNotProvided,
            self == AuthError::TokenInvalid ==> r == ErrorMessage::TokenInvalid,
            self == AuthError::UserNoLongerExist ==> r == ErrorMessage::UserNoLongerExist,
    {
        match self {
            AuthError::TokenNotProvided => ErrorMessage::TokenNotProvided,
            AuthError::TokenInvalid => ErrorMessage::TokenInvalid,
            AuthError::UserNoLongerExist => ErrorMessage::UserNoLongerExist,
        }
    }
}

/// The UUID value that parsing recovers from a string, as its 128-bit
/// number, or `None` when the string is not a UUID.
pub uninterp spec fn uuid_of(s: Seq<char>) -> Option<u128>;

/// Relies on `uuid::Uuid::parse_str` and `Uuid::as_u128`: parsing is a
/// function of the text alone, and fails exactly where the crate
/// rejects the text.
#[verifier::external_body]
fn parse_uuid(s: &str) -> (r: Option<u128>)
    ensures
        r == uuid_of(s@),
{
    match uuid::Uuid::parse_str(s) {
        Ok(u) => Some(u.as_u128()),
        Err(_) => None,
    }
}

/// The canonical hyphenated text of the UUID with this 128-bit value.
pub uninterp spec fn uuid_string_of(id: u128) -> Seq<char>;

/// Relies on `uuid::Uuid::from_u128` and the hyphenated `Display`
/// format: the 36-character text is a function of the value alone, and
/// `Uuid::parse_str` recovers the value from it.
#[verifier::external_body]
pub fn format_uuid(id: u128) -> (r: String)
    ensures
        r@ == uuid_string_of(id),
        r@.len() == 36,
        uuid_of(r@) == Some(id),
{
    uuid::Uuid::from_u128(id).hyphenated().to_string()
}

/// Whether the header value starts with the seven characters
/// `"Bearer "`.
pub open spec fn spec_has_bearer_prefix(h: Seq<char>) -> bool {
    h.len() >= 7 && h.subrange(0, 7) == "Bearer "@
}

/// Whether this header value starts with `"Bearer "`.
fn has_bearer_prefix(h: &str) -> (r: bool)
    ensures
        r == spec_has_bearer_prefix(h@),
{
    let len = h.unicode_len();
    if len < 7 {
        return false;
    }
    let prefix = h.substring_char(0, 7).to_owned();
    prefix == String::from_str("Bearer ")
}

/// The credential the request carries: the cookie when present, else
/// the authorization header with a `Bearer ` prefix stripped. An absent
/// or whitespace-only credential is `TokenNotProvided`; a header with a
/// `Bearer` prefix that does not split into exactly two words is
/// `TokenInvalid`.
pub open spec fn spec_credential(cookie: Option<Seq<char>>, header: Option<Seq<char>>) -> Result<
    Seq<char>,
    AuthError,
> {
    match cookie {
        Some(c) => {
            if spec_all_spaces(c) {
                Err(AuthError::TokenNotProvided)
            } else {
                Ok(c)
            }
        },
        None => {
            match header {
                None => Err(AuthError::TokenNotProvided),
                Some(h) => {
                    if spec_all_spaces(h) {
                        Err(AuthError::TokenNotProvided)
                    } else if spec_has_bearer_prefix(h) {
                        match spec_two_words(h) {
                            Some(w) => {
                                if w.0 == "Bearer"@ {
                                    Ok(w.1)
                                } else {
                                    Err(AuthError::TokenInvalid)
                                }
                            },
                            None => Err(AuthError::TokenInvalid),
                        }
                    } else {
                        Ok(h)
                    }
                },
            }
        },
    }
}

/// Extracts the credential string from the request's cookie and
/// authorization header, as `spec_credential` describes.
pub fn extract_credential(cookie: Option<&String>, header: Option<&String>) -> (r: Result<
    String,
    AuthError,
>)
    ensures
        r is Ok <==> spec_credential(view_opt(cookie), view_opt(header)) is Ok,
        r matches Ok(t) ==> spec_credential(view_opt(cookie), view_opt(header)) == Ok::<
            Seq<char>,
            AuthError,
        >(t@),
        r matches Err(e) ==> spec_credential(view_opt(cookie), view_opt(header)) == Err::<
            Seq<char>,
            AuthError,
        >(e),
{
    match cookie {
        Some(c) => {
            if all_spaces(c.as_str()) {
                Err(AuthError::TokenNotProvided)
            } else {
                Ok(c.clone())
            }
        },
        None => {
            match header {
                None => Err(AuthError::TokenNotProvided),
                Some(h) => {
                    if all_spaces(h.as_str()) {
                        Err(AuthError::TokenNotProvided)
                    } else if has_bearer_prefix(h.as_str()) {
                        match two_words(h.as_str()) {
                            Some(w) => {
                                if w.0 == String::from_str("Bearer") {
                                    Ok(w.1)
                                } else {
                                    Err(AuthError::TokenInvalid)
                                }
                            },
                            None => Err(AuthError::TokenInvalid),
                        }
                    } else {
                        Ok(h.clone())
                    }
                },
            }
        },
    }
}

/// The view of an optional borrowed string.
pub open spec fn view_opt(s: Option<&String>) -> Option<Seq<char>> {
    match s {
        Some(x) => Some(x@),
        None => None,
    }
}

/// What authenticating a request resolves to: the user the credential
/// names, or the failure the pipeline short-circuits with.
pub open spec fn spec_auth_token(
    store: UserStore,
    cookie: Option<Seq<char>>,
    header: Option<Seq<char>>,
    secret: Seq<u8>,
    now: u64,
) -> Result<UserView, AuthError> {
    match spec_credential(cookie, header) {
        Err(e) => Err(e),
        Ok(tok) => {
            if !token_accepted(tok, secret, now) {
                Err(AuthError::TokenInvalid)
            } else {
                match uuid_of(token_subject(tok, secret)) {
                    None => Err(AuthError::TokenInvalid),
                    Some(id) => {
                        if store.has_user(id) {
                            Ok(store.user_at(id))
                        } else {
                            Err(AuthError::UserNoLongerExist)
                        }
                    },
                }
            }
        },
    }
}

/// Authenticates one request: extracts the credential, checks the
/// bearer token under `secret` at time `now`, parses its subject as a
/// UUID, and resolves the user — rejecting at every failing step, as
/// `spec_auth_token` describes.
pub fn auth_token(
    store: &UserStore,
    cookie: Option<&String>,
    header: Option<&String>,
    secret: &[u8],
    now: u64,
) -> (r: Result<AuthenticatedUser, AuthError>)
    requires
        store.wf(),
    ensures
        r is Ok <==> spec_auth_token(*store, view_opt(cookie), view_opt(header), secret@, now)
            is Ok,
        r matches Ok(a) ==> spec_auth_token(*store, view_opt(cookie), view_opt(header), secret@, now)
            == Ok::<UserView, AuthError>(a.user@),
        r matches Err(e) ==> spec_auth_token(*store, view_opt(cookie), view_opt(header), secret@, now)
            == Err::<UserView, AuthError>(e),
{
    let credential = match extract_credential(cookie, header) {
        Err(e) => {
            return Err(e);
        },
        Ok(t) => t,
    };
    let subject = match parse_token(credential.as_str(), secret, now) {
        Err(_) => {
            return Err(AuthError::TokenInvalid);
        },
        Ok(s) => s,
    };
    let user_id = match parse_uuid(subject.as_str()) {
        None => {
            return Err(AuthError::TokenInvalid);
        },
        Some(id) => id,
    };
    match store.get_user_by_id(user_id) {
        None => Err(AuthError::UserNoLongerExist),
        Some(user) => Ok(AuthenticatedUser { user }),
    }
}

/// Checks a request's Basic credential against the configured pair: an
/// absent or whitespace-only header is `TokenNotProvided`; otherwise
/// the header is decoded and compared as `basic_outcome` describes,
/// with every failure mapped onto the public error vocabulary. A
/// malformed Basic header is a bad request: the route layer serves the
/// `TokenInvalid` it gets here as a 400 reply, unlike the 401 a bad
/// session token draws.
pub fn auth_basic(header: Option<&String>, user: &str, pass: &str) -> (r: Result<(), ErrorMessage>)
    ensures
        r == spec_auth_basic(view_opt(header), user@, pass@),
{
    let h = match header {
        None => {
            return Err(ErrorMessage::TokenNotProvided);
        },
        Some(h) => h,
    };
    if all_spaces(h.as_str()) {
        return Err(ErrorMessage::TokenNotProvided);
    }
    match crate::basic_auth::decode_basic(h.as_str(), user, pass) {
        Ok(()) => Ok(()),
        Err(crate::jwt::CredentialError::WrongCredentials) => Err(ErrorMessage::WrongCredentials),
        Err(_) => Err(ErrorMessage::TokenInvalid),
    }
}

/// What checking a request's Basic credential resolves to.
pub open spec fn spec_auth_basic(header: Option<Seq<char>>, user: Seq<char>, pass: Seq<char>) -> Result<
    (),
    ErrorMessage,
> {
    match header {
        None => Err(ErrorMessage::TokenNotProvided),
        Some(h) => {
            if spec_all_spaces(h) {
                Err(ErrorMessage::TokenNotProvided)
            } else {
                match crate::basic_auth::basic_outcome(h, user, pass) {
                    Ok(()) => Ok(()),
                    Err(crate::jwt::CredentialError::WrongCredentials) => Err(
                        ErrorMessage::WrongCredentials,
                    ),
                    Err(_) => Err(ErrorMessage::TokenInvalid),
                }
            }
        },
    }
}

} // verus!
