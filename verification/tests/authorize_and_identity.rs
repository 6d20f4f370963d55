//! The authorization gate and the identity resolver.

use authkit::identity::{auth_token, AuthError};
use authkit::lifecycle::{sign_in_issue, sign_in_lookup, TokenFlowError};
use authkit::jwt::create_token;
use authkit::permission::{check_permission, AuthenticatedUser, AuthzError, Permission};
use authkit::role::RoleType;
use authkit::store::{User, UserStore};

const NOW: u64 = 1_700_000_000;
const SECRET: &[u8] = b"gate-signing-secret";

fn store_with_user() -> (UserStore, u128, u128) {
    let mut store = UserStore::new();
    let role_id = store.add_role(
        RoleType::User,
        vec![String::from("user:self"), String::from("post:create")],
    );
    let user_id = 77;
    store.users.push(User {
        id: user_id,
        role_id,
        name: String::from("Test Person"),
        email: String::from("a@example.com"),
        password: String::from("hash"),
        is_verified: true,
    });
    (store, user_id, role_id)
}

fn identity_of(store: &UserStore, user_id: u128) -> AuthenticatedUser {
    AuthenticatedUser { user: store.get_user_by_id(user_id).unwrap() }
}

#[test]
fn role_with_permission_is_allowed() {
    let (store, user_id, _) = store_with_user();
    let auth = identity_of(&store, user_id);
    assert_eq!(check_permission(&store, Some(&auth), "user:self"), Ok(()));
    assert_eq!(check_permission(&store, Some(&auth), "post:create"), Ok(()));
}

#[test]
fn role_without_permission_is_denied() {
    let (store, user_id, _) = store_with_user();
    let auth = identity_of(&store, user_id);
    assert_eq!(
        check_permission(&store, Some(&auth), "user:delete"),
        Err(AuthzError::PermissionDenied)
    );
    // Membership is exact: no prefix or hierarchy matching.
    assert_eq!(
        check_permission(&store, Some(&auth), "user"),
        Err(AuthzError::PermissionDenied)
    );
}

#[test]
fn missing_identity_is_user_not_authenticated_for_any_permission() {
    let (store, _, _) = store_with_user();
    assert_eq!(
        check_permission(&store, None, "user:self"),
        Err(AuthzError::UserNotAuthenticated)
    );
    assert_eq!(
        check_permission(&store, None, "post:create"),
        Err(AuthzError::UserNotAuthenticated)
    );
    assert_eq!(
        check_permission(&store, None, ""),
        Err(AuthzError::UserNotAuthenticated)
    );
}

#[test]
fn unknown_role_fails_closed_with_server_error() {
    let (store, user_id, _) = store_with_user();
    let mut auth = identity_of(&store, user_id);
    auth.user.role_id = 999_999;
    assert_eq!(
        check_permission(&store, Some(&auth), "user:self"),
        Err(AuthzError::ServerError)
    );
}

#[test]
fn permission_names_round_trip() {
    let all = [
        Permission::UserSelf,
        Permission::UserChangePassword,
        Permission::PostListByUser,
        Permission::CommentDelete,
    ];
    for p in all {
        let name = p.to_string();
        assert_eq!(Permission::from_str(&name), Some(p));
    }
    assert_eq!(Permission::to_string(&Permission::UserSelf), "user:self");
    assert_eq!(Permission::from_str("no:such"), None);
}

const SUBJECT: &str = "00000000-0000-0000-0000-00000000004d";

fn store_with_uuid_user() -> UserStore {
    let mut store = UserStore::new();
    let role_id = store.add_role(RoleType::User, vec![String::from("user:self")]);
    store.users.push(User {
        id: 0x4d,
        role_id,
        name: String::from("Test Person"),
        email: String::from("a@example.com"),
        password: String::from("hash"),
        is_verified: true,
    });
    store
}

#[test]
fn bearer_header_resolves_the_user() {
    let store = store_with_uuid_user();
    let token = create_token(SUBJECT, SECRET, 10, NOW).unwrap();
    let header = format!("Bearer {}", token);
    let auth = auth_token(&store, None, Some(&header), SECRET, NOW + 1).unwrap();
    assert_eq!(auth.user.id, 0x4d);
}

#[test]
fn plain_header_and_cookie_also_resolve_the_user() {
    let store = store_with_uuid_user();
    let token = create_token(SUBJECT, SECRET, 10, NOW).unwrap();
    let auth = auth_token(&store, None, Some(&token), SECRET, NOW + 1).unwrap();
    assert_eq!(auth.user.id, 0x4d);
    let auth = auth_token(&store, Some(&token), None, SECRET, NOW + 1).unwrap();
    assert_eq!(auth.user.id, 0x4d);
}

#[test]
fn missing_or_blank_credential_is_token_not_provided() {
    let store = store_with_uuid_user();
    let r = auth_token(&store, None, None, SECRET, NOW);
    assert!(matches!(r, Err(AuthError::TokenNotProvided)));
    let blank = String::from("  \t ");
    let r = auth_token(&store, None, Some(&blank), SECRET, NOW);
    assert!(matches!(r, Err(AuthError::TokenNotProvided)));
}

#[test]
fn bearer_header_with_extra_words_is_invalid() {
    let store = store_with_uuid_user();
    let token = create_token(SUBJECT, SECRET, 10, NOW).unwrap();
    let header = format!("Bearer {} trailing", token);
    let r = auth_token(&store, None, Some(&header), SECRET, NOW + 1);
    assert!(matches!(r, Err(AuthError::TokenInvalid)));
}

#[test]
fn expired_or_garbled_token_is_invalid() {
    let store = store_with_uuid_user();
    let token = create_token(SUBJECT, SECRET, 10, NOW).unwrap();
    let r = auth_token(&store, None, Some(&token), SECRET, NOW + 601);
    assert!(matches!(r, Err(AuthError::TokenInvalid)));
    let garbled = String::from("Bearer not.a.token");
    let r = auth_token(&store, None, Some(&garbled), SECRET, NOW);
    assert!(matches!(r, Err(AuthError::TokenInvalid)));
}

#[test]
fn subject_that_is_not_a_uuid_is_invalid() {
    let store = store_with_uuid_user();
    let token = create_token("not-a-uuid", SECRET, 10, NOW).unwrap();
    let r = auth_token(&store, None, Some(&token), SECRET, NOW + 1);
    assert!(matches!(r, Err(AuthError::TokenInvalid)));
}

#[test]
fn deleted_user_is_user_no_longer_exist() {
    let store = store_with_uuid_user();
    let other = create_token("00000000-0000-0000-0000-000000000099", SECRET, 10, NOW).unwrap();
    let r = auth_token(&store, None, Some(&other), SECRET, NOW + 1);
    assert!(matches!(r, Err(AuthError::UserNoLongerExist)));
}

#[test]
fn blank_cookie_is_token_not_provided() {
    let store = store_with_uuid_user();
    let blank = String::from(" ");
    let header = String::from("Bearer something");
    // The cookie wins over the header, and a blank cookie means no
    // credential was provided.
    let r = auth_token(&store, Some(&blank), Some(&header), SECRET, NOW);
    assert!(matches!(r, Err(AuthError::TokenNotProvided)));
}

#[test]
fn sign_in_issues_a_token_that_authenticates_back() {
    let store = store_with_uuid_user();
    let account = sign_in_lookup(&store, "a@example.com").unwrap();
    assert_eq!(account.id, 0x4d);

    // A wrong password is rejected with the same error as an unknown
    // email.
    let r = sign_in_issue(&account, false, SECRET, 10, NOW);
    assert!(matches!(r, Err(TokenFlowError::WrongCredentials)));
    let r = sign_in_lookup(&store, "nobody@example.com");
    assert!(matches!(r, Err(TokenFlowError::WrongCredentials)));

    // A matching password yields a token the resolver accepts back.
    let token = sign_in_issue(&account, true, SECRET, 10, NOW).unwrap();
    let auth = auth_token(&store, None, Some(&token), SECRET, NOW + 1).unwrap();
    assert_eq!(auth.user.id, 0x4d);
}

#[test]
fn unverified_account_cannot_sign_in() {
    let mut store = store_with_uuid_user();
    store.users[0].is_verified = false;
    let r = sign_in_lookup(&store, "a@example.com");
    assert!(matches!(r, Err(TokenFlowError::AccountNotActive)));
}
