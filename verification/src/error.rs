//! Public error vocabulary of the authentication layer, with the
//! user-facing message and the HTTP status that each error maps to.

use vstd::prelude::*;

use crate::strfmt::{append_decimal, spec_decimal};

verus! {

/// Every failure the authentication, authorization, token-lifecycle and
/// rate-limiting stages can surface to a caller.
#[derive(Debug, PartialEq)]
pub enum ErrorMessage {
    EmptyPassword,
    ExceededMaxPasswordLength(usize),
    FailedSendEmail(String),
    InvalidHashFormat,
    HashingError,
    ServerError,
    WrongCredentials,
    EmailExist,
    UserNoLongerExist,
    TokenInvalid,
    TokenNotProvided,
    TokenExpired,
    TooManyRequest,
    TokenKeyExpired,
    TokenKeyInvalid,
    DataNotFound,
    PermissionDenied,
    UserNotAuthenticated,
    AccountActive,
    AccountNotActive,
}

impl ErrorMessage {
    /// The user-facing text of this error.
    pub open spec fn spec_message(&self) -> Seq<char> {
        match self {
            ErrorMessage::ServerError => "Internal Server Error. Please try again later."@,
            ErrorMessage::WrongCredentials => "Your credentials is wrong."@,
            ErrorMessage::EmailExist => "A user with this email already exists."@,
            ErrorMessage::UserNoLongerExist => "User belonging to this token no longer exists."@,
            ErrorMessage::EmptyPassword => "Password cannot be empty."@,
            ErrorMessage::HashingError => "Error while hashing password."@,
            ErrorMessage::InvalidHashFormat => "Invalid password hash format."@,
            ErrorMessage::ExceededMaxPasswordLength(max_length) => "Password must not be more than "@
                + spec_decimal(*max_length as int) + " characters."@,
            ErrorMessage::FailedSendEmail(err) => "Failed to send email: "@ + err@ + "."@,
            ErrorMessage::TokenInvalid => "Authentication token is invalid or expired."@,
            ErrorMessage::TokenNotProvided => "You are not logged in, please provide a token."@,
            ErrorMessage::TokenExpired => "Token has expired."@,
            ErrorMessage::TooManyRequest => "Request limit is exceeded, too many request."@,
            ErrorMessage::TokenKeyExpired => "Token key has expired."@,
            ErrorMessage::TokenKeyInvalid => "Token key is invalid."@,
            ErrorMessage::DataNotFound => "Data is not found."@,
            ErrorMessage::PermissionDenied => "You are not allowed to perform this action."@,
            ErrorMessage::UserNotAuthenticated => "Authentication required. Please log in."@,
            ErrorMessage::AccountActive => "Account is already active."@,
            ErrorMessage::AccountNotActive => "Account is not active. Please verify your account."@,
        }
    }

    /// The HTTP status this error is served with: 401 for failures to
    /// authenticate, 403 for a denied permission, 429 for an exceeded
    /// request quota, 400 for invalid input, an invalid or expired
    /// action token, or an account in the wrong activation state, 404
    /// for missing data, 409 for a duplicate email, and 500 for
    /// infrastructure failures.
    pub open spec fn spec_http_status(&self) -> u16 {
        match self {
            ErrorMessage::ServerError => 500,
            ErrorMessage::HashingError => 500,
            ErrorMessage::FailedSendEmail(_) => 500,
            ErrorMessage::WrongCredentials => 401,
            ErrorMessage::UserNoLongerExist => 401,
            ErrorMessage::TokenInvalid => 401,
            ErrorMessage::TokenNotProvided => 401,
            ErrorMessage::TokenExpired => 401,
            ErrorMessage::UserNotAuthenticated => 401,
            ErrorMessage::PermissionDenied => 403,
            ErrorMessage::TooManyRequest => 429,
            ErrorMessage::TokenKeyExpired => 400,
            ErrorMessage::TokenKeyInvalid => 400,
            ErrorMessage::EmptyPassword => 400,
            ErrorMessage::ExceededMaxPasswordLength(_) => 400,
            ErrorMessage::InvalidHashFormat => 400,
            ErrorMessage::EmailExist => 409,
            ErrorMessage::DataNotFound => 404,
            ErrorMessage::AccountActive => 400,
            ErrorMessage::AccountNotActive => 400,
        }
    }

    /// Renders the user-facing text of this error.
    pub fn get_message(&self) -> (r: String)
        ensures
            r@ == self.spec_message(),
    {
        match self {
            ErrorMessage::ServerError => str_of("Internal Server Error. Please try again later."),
            ErrorMessage::WrongCredentials => str_of("Your credentials is wrong."),
            ErrorMessage::EmailExist => str_of("A user with this email already exists."),
            ErrorMessage::UserNoLongerExist => str_of(
                "User belonging to this token no longer exists.",
            ),
            ErrorMessage::EmptyPassword => str_of("Password cannot be empty."),
            ErrorMessage::HashingError => str_of("Error while hashing password."),
            ErrorMessage::InvalidHashFormat => str_of("Invalid password hash format."),
            ErrorMessage::ExceededMaxPasswordLength(max_length) => {
                let mut s = String::from_str("Password must not be more than ");
                append_decimal(&mut s, *max_length as u64);
                let r = s.concat(" characters.");
                proof {
                    assert(r@ =~= self.spec_message());
                }
                r
            },
            ErrorMessage::FailedSendEmail(err) => {
                let mut s = String::from_str("Failed to send email: ");
                s.append(err.as_str());
                let r = s.concat(".");
                proof {
                    assert(r@ =~= self.spec_message());
                }
                r
            },
            ErrorMessage::TokenInvalid => str_of("Authentication token is invalid or expired."),
            ErrorMessage::TokenNotProvided => str_of(
                "You are not logged in, please provide a token.",
            ),
            ErrorMessage::TokenExpired => str_of("Token has expired."),
            ErrorMessage::TooManyRequest => str_of("Request limit is exceeded, too many request."),
            ErrorMessage::TokenKeyExpired => str_of("Token key has expired."),
            ErrorMessage::TokenKeyInvalid => str_of("Token key is invalid."),
            ErrorMessage::DataNotFound => str_of("Data is not found."),
            ErrorMessage::PermissionDenied => str_of(
                "You are not allowed to perform this action.",
            ),
            ErrorMessage::UserNotAuthenticated => str_of("Authentication required. Please log in."),
            ErrorMessage::AccountActive => str_of("Account is already active."),
            ErrorMessage::AccountNotActive => str_of(
                "Account is not active. Please verify your account.",
            ),
        }
    }

    /// The HTTP status this error is served with.
    pub fn http_status(&self) -> (r: u16)
        ensures
            r == self.spec_http_status(),
    {
        match self {
            ErrorMessage::ServerError => 500,
            ErrorMessage::HashingError => 500,
            ErrorMessage::FailedSendEmail(_) => 500,
            ErrorMessage::WrongCredentials => 401,
            ErrorMessage::UserNoLongerExist => 401,
            ErrorMessage::TokenInvalid => 401,
            ErrorMessage::TokenNotProvided => 401,
            ErrorMessage::TokenExpired => 401,
            ErrorMessage::UserNotAuthenticated => 401,
            ErrorMessage::PermissionDenied => 403,
            ErrorMessage::TooManyRequest => 429,
            ErrorMessage::TokenKeyExpired => 400,
            ErrorMessage::TokenKeyInvalid => 400,
            ErrorMessage::EmptyPassword => 400,
            ErrorMessage::ExceededMaxPasswordLength(_) => 400,
            ErrorMessage::InvalidHashFormat => 400,
            ErrorMessage::EmailExist => 409,
            ErrorMessage::DataNotFound => 404,
            ErrorMessage::AccountActive => 400,
            ErrorMessage::AccountNotActive => 400,
        }
    }
}

/// Copies a string slice into an owned string.
fn str_of(s: &str) -> (r: String)
    ensures
        r@ == s@,
{
    String::from_str(s)
}

/// The serialized shape of an error reply: a fixed "error" status, the
/// user-facing message, and an optional structured payload.
pub struct ErrorResponse<T> {
    pub status: String,
    pub message: String,
    pub error: Option<T>,
}

/// Validation failures collected for one request field.
#[derive(Debug)]
pub struct FieldError {
    pub field: String,
    pub messages: Vec<String>,
}

/// Structured payload attached to an error reply.
#[derive(Debug)]
pub enum ErrorPayload {
    ValidationErrors(Vec<FieldError>),
}

} // verus!
