//! The action-token lifecycle, end to end: sign-up, verification,
//! replay, expiry boundaries, reissue-by-replacement, and password
//! reset.

use authkit::action_token::{ActionType, NewUserActionToken};
use authkit::lifecycle::{
    forgot_password, resend_activation, reset_password, sign_up, validate_expiry, verify_account,
    TokenFlowError,
};
use authkit::role::RoleType;
use authkit::store::UserStore;

const NOW: u64 = 1_700_000_000;
const DAY: u64 = 86400;

fn store_with_roles() -> UserStore {
    let mut store = UserStore::new();
    store.add_role(RoleType::Admin, vec![String::from("user:list")]);
    store.add_role(RoleType::User, vec![String::from("user:self")]);
    store
}

fn signed_up(store: &mut UserStore, email: &str, token: &str) -> u128 {
    let user = sign_up(
        store,
        String::from("Test Person"),
        String::from(email),
        String::from("hash-of-password"),
        String::from(token),
        NOW,
    )
    .unwrap();
    user.id
}

#[test]
fn sign_up_creates_unverified_user_and_verify_token() {
    let mut store = store_with_roles();
    let user = sign_up(
        &mut store,
        String::from("Test Person"),
        String::from("a@example.com"),
        String::from("hash-of-password"),
        String::from("tok-1"),
        NOW,
    )
    .unwrap();
    assert!(!user.is_verified);
    assert_eq!(store.users.len(), 1);
    assert_eq!(store.tokens.len(), 1);
    let row = &store.tokens[0];
    assert_eq!(row.user_id, user.id);
    assert_eq!(row.token.as_deref(), Some("tok-1"));
    assert_eq!(row.expires_at, Some(NOW + DAY));
    assert!(row.used_at.is_none());
}

#[test]
fn sign_up_with_taken_email_fails_with_email_exist() {
    let mut store = store_with_roles();
    signed_up(&mut store, "a@example.com", "tok-1");
    let r = sign_up(
        &mut store,
        String::from("Other Person"),
        String::from("a@example.com"),
        String::from("hash"),
        String::from("tok-2"),
        NOW,
    );
    assert!(matches!(r, Err(TokenFlowError::EmailExist)));
    assert_eq!(store.users.len(), 1);
}

#[test]
fn sign_up_without_user_role_fails_with_data_not_found() {
    let mut store = UserStore::new();
    let r = sign_up(
        &mut store,
        String::from("Test Person"),
        String::from("a@example.com"),
        String::from("hash"),
        String::from("tok-1"),
        NOW,
    );
    assert!(matches!(r, Err(TokenFlowError::DataNotFound)));
}

#[test]
fn verify_then_replay_consumes_exactly_once() {
    let mut store = store_with_roles();
    let uid = signed_up(&mut store, "a@example.com", "tok-1");

    // First use: the user becomes verified, the row is consumed.
    let user = verify_account(&mut store, "tok-1", NOW + 60).unwrap();
    assert_eq!(user.id, uid);
    assert!(user.is_verified);
    let row = &store.tokens[0];
    assert!(row.token.is_none());
    assert!(row.expires_at.is_none());
    assert_eq!(row.used_at, Some(NOW + 60));

    // Replaying the same raw value is indistinguishable from a token
    // that never existed.
    let r = verify_account(&mut store, "tok-1", NOW + 61);
    assert!(matches!(r, Err(TokenFlowError::TokenKeyInvalid)));
}

#[test]
fn unknown_token_fails_with_token_key_invalid() {
    let mut store = store_with_roles();
    signed_up(&mut store, "a@example.com", "tok-1");
    let r = verify_account(&mut store, "no-such-token", NOW);
    assert!(matches!(r, Err(TokenFlowError::TokenKeyInvalid)));
}

#[test]
fn expiry_boundary_one_second_past_fails_one_hour_left_passes() {
    let mut store = store_with_roles();
    let uid = signed_up(&mut store, "a@example.com", "tok-1");

    // A row whose expiry lies one second in the past fails.
    store.upsert_action_token(
        uid,
        NewUserActionToken {
            token: String::from("stale"),
            action_type: ActionType::VerifyAccount,
            expires_at: NOW - 1,
        },
        NOW - DAY,
    );
    let r = verify_account(&mut store, "stale", NOW);
    assert!(matches!(r, Err(TokenFlowError::TokenKeyExpired)));

    // One with an hour left passes.
    store.upsert_action_token(
        uid,
        NewUserActionToken {
            token: String::from("fresh"),
            action_type: ActionType::VerifyAccount,
            expires_at: NOW + 3600,
        },
        NOW,
    );
    let user = verify_account(&mut store, "fresh", NOW).unwrap();
    assert!(user.is_verified);
}

#[test]
fn validate_expiry_boundaries() {
    let mut store = store_with_roles();
    let uid = signed_up(&mut store, "a@example.com", "tok-1");
    let row = store.upsert_action_token(
        uid,
        NewUserActionToken {
            token: String::from("t"),
            action_type: ActionType::VerifyAccount,
            expires_at: NOW,
        },
        NOW,
    );
    // Exactly at the expiry the token still validates; one second
    // later it no longer does.
    assert!(validate_expiry(&row, NOW).is_ok());
    assert!(matches!(
        validate_expiry(&row, NOW + 1),
        Err(TokenFlowError::TokenKeyExpired)
    ));
}

#[test]
fn issuing_twice_leaves_one_row_with_the_latest_token() {
    let mut store = store_with_roles();
    let uid = signed_up(&mut store, "a@example.com", "tok-1");
    assert_eq!(store.tokens.len(), 1);

    resend_activation(&mut store, "a@example.com", String::from("tok-2"), NOW + 10).unwrap();
    resend_activation(&mut store, "a@example.com", String::from("tok-3"), NOW + 20).unwrap();

    // Still exactly one row for (user, VerifyAccount), holding the
    // latest token and expiry.
    let rows: Vec<_> = store
        .tokens
        .iter()
        .filter(|t| t.user_id == uid && t.action_type == ActionType::VerifyAccount)
        .collect();
    assert_eq!(rows.len(), 1);
    assert_eq!(rows[0].token.as_deref(), Some("tok-3"));
    assert_eq!(rows[0].expires_at, Some(NOW + 20 + DAY));
    // The first token value no longer works.
    let r = verify_account(&mut store, "tok-1", NOW + 30);
    assert!(matches!(r, Err(TokenFlowError::TokenKeyInvalid)));
}

#[test]
fn resend_activation_for_verified_account_fails() {
    let mut store = store_with_roles();
    signed_up(&mut store, "a@example.com", "tok-1");
    verify_account(&mut store, "tok-1", NOW).unwrap();
    let r = resend_activation(&mut store, "a@example.com", String::from("tok-2"), NOW);
    assert!(matches!(r, Err(TokenFlowError::AccountActive)));
}

#[test]
fn resend_activation_for_unknown_email_fails() {
    let mut store = store_with_roles();
    let r = resend_activation(&mut store, "nobody@example.com", String::from("tok"), NOW);
    assert!(matches!(r, Err(TokenFlowError::DataNotFound)));
}

#[test]
fn forgot_password_requires_a_verified_account() {
    let mut store = store_with_roles();
    signed_up(&mut store, "a@example.com", "tok-1");
    let r = forgot_password(&mut store, "a@example.com", String::from("reset-1"), NOW);
    assert!(matches!(r, Err(TokenFlowError::AccountNotActive)));

    verify_account(&mut store, "tok-1", NOW).unwrap();
    let row = forgot_password(&mut store, "a@example.com", String::from("reset-1"), NOW).unwrap();
    assert_eq!(row.action_type, ActionType::ResetPassword);
    assert_eq!(row.expires_at, Some(NOW + 7200));
}

#[test]
fn reset_password_consumes_the_token_and_replaces_the_hash() {
    let mut store = store_with_roles();
    let uid = signed_up(&mut store, "a@example.com", "tok-1");
    verify_account(&mut store, "tok-1", NOW).unwrap();
    forgot_password(&mut store, "a@example.com", String::from("reset-1"), NOW).unwrap();

    let user = reset_password(&mut store, "reset-1", String::from("new-hash"), NOW + 60).unwrap();
    assert_eq!(user.id, uid);
    assert_eq!(user.password, "new-hash");

    // The reset token is single use too.
    let r = reset_password(&mut store, "reset-1", String::from("other-hash"), NOW + 61);
    assert!(matches!(r, Err(TokenFlowError::TokenKeyInvalid)));
}

#[test]
fn end_to_end_sign_up_verify_replay() {
    let mut store = store_with_roles();
    let user = sign_up(
        &mut store,
        String::from("Test Person"),
        String::from("e2e@example.com"),
        String::from("hash"),
        String::from("activation-token"),
        NOW,
    )
    .unwrap();
    assert!(!user.is_verified);
    assert_eq!(store.tokens[0].expires_at, Some(NOW + DAY));

    let verified = verify_account(&mut store, "activation-token", NOW + 100).unwrap();
    assert_eq!(verified.id, user.id);
    assert!(verified.is_verified);
    assert!(store.get_user_by_id(user.id).unwrap().is_verified);

    let r = verify_account(&mut store, "activation-token", NOW + 101);
    assert!(matches!(r, Err(TokenFlowError::TokenKeyInvalid)));
}

#[test]
fn consuming_a_token_whose_user_vanished_is_a_server_error() {
    let mut store = store_with_roles();
    signed_up(&mut store, "a@example.com", "tok-1");
    // The user row disappears while its token row survives: consuming
    // now fails as an infrastructure error, and nothing is mutated.
    store.users.clear();
    let r = verify_account(&mut store, "tok-1", NOW);
    assert!(matches!(r, Err(TokenFlowError::ServerError)));
    assert!(store.tokens[0].used_at.is_none());
}
