//! Error messages, status codes, pagination arithmetic, validators,
//! role and action names, decimal rendering, and random token values.

use authkit::action_token::ActionType;
use authkit::dto::{
    default_limit, default_order_by, default_page, validate_order_by, validate_tags,
    PaginationMeta, SuccessResponse,
};
use authkit::error::ErrorMessage;
use authkit::randutil::generate_random_string;
use authkit::role::RoleType;
use authkit::strfmt::u64_to_string;

#[test]
fn sum_test() {
    let result = 3 + 5;
    assert_eq!(result, 8, "wrong result")
}

#[test]
fn error_messages_are_exact() {
    assert_eq!(
        ErrorMessage::ServerError.get_message(),
        "Internal Server Error. Please try again later."
    );
    assert_eq!(
        ErrorMessage::TokenKeyInvalid.get_message(),
        "Token key is invalid."
    );
    assert_eq!(
        ErrorMessage::TokenKeyExpired.get_message(),
        "Token key has expired."
    );
    assert_eq!(
        ErrorMessage::ExceededMaxPasswordLength(32).get_message(),
        "Password must not be more than 32 characters."
    );
    assert_eq!(
        ErrorMessage::FailedSendEmail(String::from("relay down")).get_message(),
        "Failed to send email: relay down."
    );
    assert_eq!(
        ErrorMessage::AccountActive.get_message(),
        "Account is already active."
    );
    assert_eq!(
        ErrorMessage::AccountNotActive.get_message(),
        "Account is not active. Please verify your account."
    );
}

#[test]
fn http_statuses_follow_the_mapping() {
    assert_eq!(ErrorMessage::TokenNotProvided.http_status(), 401);
    assert_eq!(ErrorMessage::TokenInvalid.http_status(), 401);
    assert_eq!(ErrorMessage::UserNoLongerExist.http_status(), 401);
    assert_eq!(ErrorMessage::PermissionDenied.http_status(), 403);
    assert_eq!(ErrorMessage::TooManyRequest.http_status(), 429);
    assert_eq!(ErrorMessage::TokenKeyInvalid.http_status(), 400);
    assert_eq!(ErrorMessage::TokenKeyExpired.http_status(), 400);
    assert_eq!(ErrorMessage::ServerError.http_status(), 500);
    assert_eq!(ErrorMessage::EmailExist.http_status(), 409);
    assert_eq!(ErrorMessage::AccountActive.http_status(), 400);
    assert_eq!(ErrorMessage::AccountNotActive.http_status(), 400);
}

#[test]
fn pagination_uses_the_integer_ceiling() {
    let m = PaginationMeta::new(1, 5, 12);
    assert_eq!(m.total_pages, 3);
    assert!(m.has_next);
    assert!(!m.has_prev);

    let m = PaginationMeta::new(3, 5, 15);
    assert_eq!(m.total_pages, 3);
    assert!(!m.has_next);
    assert!(m.has_prev);

    let m = PaginationMeta::new(1, 5, 0);
    assert_eq!(m.total_pages, 0);
    assert!(!m.has_next);
}

#[test]
fn listing_defaults() {
    assert_eq!(default_limit(), Some(5));
    assert_eq!(default_page(), Some(1));
    assert_eq!(default_order_by().as_deref(), Some("DESC"));
}

#[test]
fn success_response_shape() {
    let r: SuccessResponse<u32> = SuccessResponse::new("done", Some(7));
    assert_eq!(r.status, "success");
    assert_eq!(r.message, "done");
    assert_eq!(r.data, Some(7));
}

#[test]
fn tag_validation_reports_the_first_violation() {
    assert!(validate_tags(&vec![String::from("rust"), String::from("verification")]).is_ok());
    assert!(validate_tags(&vec![]).is_ok());
    assert_eq!(
        validate_tags(&vec![String::from("   ")]).unwrap_err(),
        "Tag cannot be empty."
    );
    assert_eq!(
        validate_tags(&vec![String::from("abc")]).unwrap_err(),
        "Tag length must be at least 4 characters."
    );
    assert_eq!(
        validate_tags(&vec![String::from("a-very-long-tag-name-beyond-twenty")]).unwrap_err(),
        "Tag length maximum cannot be greater than 20 characters."
    );
    assert_eq!(
        validate_tags(&vec![String::from("fine"), String::from("abc")]).unwrap_err(),
        "Tag length must be at least 4 characters."
    );
}

#[test]
fn order_by_accepts_asc_and_desc_only() {
    assert!(validate_order_by("ASC").is_ok());
    assert!(validate_order_by("DESC").is_ok());
    assert_eq!(
        validate_order_by("desc").unwrap_err(),
        "Order By must be either 'ASC' or 'DESC'"
    );
    assert!(validate_order_by("").is_err());
}

#[test]
fn role_and_action_wire_names() {
    assert_eq!(RoleType::Admin.get_value(), "admin");
    assert_eq!(RoleType::User.get_value(), "user");
    assert_eq!(ActionType::VerifyAccount.get_value(), "verify-account");
    assert_eq!(ActionType::ResetPassword.get_value(), "reset-password");
}

#[test]
fn decimal_rendering_is_exact() {
    assert_eq!(u64_to_string(0), "0");
    assert_eq!(u64_to_string(7), "7");
    assert_eq!(u64_to_string(12345), "12345");
    assert_eq!(u64_to_string(u64::MAX), "18446744073709551615");
}

#[test]
fn random_token_values_have_the_requested_shape() {
    let t = generate_random_string(32);
    assert_eq!(t.chars().count(), 32);
    assert!(t.chars().all(|c| c.is_ascii_alphanumeric()));
    let t = generate_random_string(0);
    assert_eq!(t.len(), 0);
}
