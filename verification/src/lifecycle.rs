//! The action-token lifecycle: sign-up, account verification, resend
//! of the activation token, forgot-password and password reset.
//!
//! Each flow reads and mutates the store through its specified
//! operations; its contract pins, for every input, which error comes
//! back and exactly how the store changes. Consuming a token and
//! mutating its user happen in one store step, together or not at all.

use vstd::prelude::*;

use crate::action_token::{consumed, row_live, unexpired, ActionType, NewUserActionToken,
    TokenView, UserActionToken};
use crate::error::ErrorMessage;
use crate::identity::{format_uuid, uuid_string_of};
use crate::jwt::{create_token, jwt_claims_of, jwt_token_of};
use crate::role::RoleType;
use crate::store::{UserMutation, User, UserStore, UserView};

verus! {

/// Seconds an account-verification token stays valid: 24 hours.
pub const VERIFY_TOKEN_TTL_SECS: u64 = 86400;

/// Seconds a password-reset token stays valid: 2 hours.
pub const RESET_TOKEN_TTL_SECS: u64 = 7200;

/// Failures of the lifecycle flows. An already-consumed or unknown
/// token is `TokenKeyInvalid` — indistinguishable by design — while an
/// expired one is `TokenKeyExpired`, a distinction the resend flow
/// depends on.
#[derive(Clone, Copy, Debug, PartialEq, Eq, Structural)]
pub enum TokenFlowError {
    /// No live row carries the presented token value.
    TokenKeyInvalid,
    /// The row exists but its expiry has passed (or is missing).
    TokenKeyExpired,
    /// The user this flow needs does not exist.
    DataNotFound,
    /// A user with this email already exists.
    EmailExist,
    /// The account is already verified; nothing to resend.
    AccountActive,
    /// The account is not verified yet; it cannot reset its password.
    AccountNotActive,
    /// The presented credentials do not name an account, or the
    /// password does not match — deliberately the same error.
    WrongCredentials,
    /// The store failed an operation that should have succeeded.
    ServerError,
}

impl TokenFlowError {
    /// The public error this failure is reported as, one variant to
    /// one. The HTTP status comes from the public error's own mapping,
    /// with one caller-level exception: a missing user surfaces as
    /// `DataNotFound`, which resend-activation serves as 404 while
    /// sign-up and forgot-password serve it as a 400 reply — a choice
    /// the route layer makes, not this vocabulary.
    pub fn to_error_message(&self) -> (r: ErrorMessage)
        ensures
            self == TokenFlowError::TokenKeyInvalid ==> r == ErrorMessage::TokenKeyInvalid,
            self == TokenFlowError::TokenKeyExpired ==> r == ErrorMessage::TokenKeyExpired,
            self == TokenFlowError::DataNotFound ==> r == ErrorMessage::DataNotFound,
            self == TokenFlowError::EmailExist ==> r == ErrorMessage::EmailExist,
            self == TokenFlowError::WrongCredentials ==> r == ErrorMessage::WrongCredentials,
            self == TokenFlowError::ServerError ==> r == ErrorMessage::ServerError,
            self == TokenFlowError::AccountActive ==> r == ErrorMessage::AccountActive,
            self == TokenFlowError::AccountNotActive ==> r == ErrorMessage::AccountNotActive,
    {
        match self {
            TokenFlowError::TokenKeyInvalid => ErrorMessage::TokenKeyInvalid,
            TokenFlowError::TokenKeyExpired => ErrorMessage::TokenKeyExpired,
            TokenFlowError::DataNotFound => ErrorMessage::DataNotFound,
            TokenFlowError::EmailExist => ErrorMessage::EmailExist,
            TokenFlowError::WrongCredentials => ErrorMessage::WrongCredentials,
            TokenFlowError::ServerError => ErrorMessage::ServerError,
            TokenFlowError::AccountActive => ErrorMessage::AccountActive,
            TokenFlowError::AccountNotActive => ErrorMessage::AccountNotActive,
        }
    }
}

/// Checks a row's expiry against the clock: fails with
/// `TokenKeyExpired` exactly when the expiry is missing or `now` has
/// passed it.
pub fn validate_expiry(t: &UserActionToken, now: u64) -> (r: Result<(), TokenFlowError>)
    ensures
        r is Ok <==> unexpired(t@, now),
        r matches Err(e) ==> e == TokenFlowError::TokenKeyExpired,
{
    match &t.expires_at {
        None => Err(TokenFlowError::TokenKeyExpired),
        Some(e) => {
            if now > *e {
                Err(TokenFlowError::TokenKeyExpired)
            } else {
                Ok(())
            }
        },
    }
}

/// Looks the presented token value up among the live rows and checks
/// its expiry: the lookup-and-validate step shared by the verify and
/// reset flows. An unknown or consumed value is `TokenKeyInvalid`; a
/// known but stale one is `TokenKeyExpired`.
pub fn lookup_valid_token(store: &UserStore, raw_token: &str, now: u64) -> (r: Result<
    UserActionToken,
    TokenFlowError,
>)
    requires
        store.wf(),
        store.live_value_unique(raw_token@),
    ensures
        r == Err::<UserActionToken, TokenFlowError>(TokenFlowError::TokenKeyInvalid)
            <==> !store.has_live_token(raw_token@),
        r == Err::<UserActionToken, TokenFlowError>(TokenFlowError::TokenKeyExpired)
            <==> store.has_live_token(raw_token@) && !unexpired(
            store.live_token_at(raw_token@),
            now,
        ),
        r is Ok <==> store.has_live_token(raw_token@) && unexpired(
            store.live_token_at(raw_token@),
            now,
        ),
        r matches Ok(t) ==> t@ == store.live_token_at(raw_token@),
{
    let row = match store.get_by_token(raw_token) {
        None => {
            return Err(TokenFlowError::TokenKeyInvalid);
        },
        Some(t) => t,
    };
    proof {
        let w = store.token_idx(row@.id);
        assert(store.tokens_v()[w] == row@);
        let c = choose|c: int|
            0 <= c < store.tokens_v().len() && row_live(#[trigger] store.tokens_v()[c])
                && store.tokens_v()[c].token == Some(raw_token@);
        assert(c == w);
        assert(row@ == store.live_token_at(raw_token@));
    }
    match validate_expiry(&row, now) {
        Err(e) => Err(e),
        Ok(()) => Ok(row),
    }
}

/// Registers a new account: creates an unverified user with the `User`
/// role and, in the same step, its `VerifyAccount` token, valid for 24
/// hours from `now`. Fails with `EmailExist` when the email is taken
/// and with `DataNotFound` when no `User` role is configured.
pub fn sign_up(
    store: &mut UserStore,
    name: String,
    email: String,
    password_hash: String,
    token_value: String,
    now: u64,
) -> (r: Result<User, TokenFlowError>)
    requires
        old(store).wf(),
        old(store).next_id + 1 < u128::MAX,
        now + VERIFY_TOKEN_TTL_SECS <= u64::MAX,
    ensures
        final(store).wf(),
        final(store).roles_v() == old(store).roles_v(),
        r == Err::<User, TokenFlowError>(TokenFlowError::EmailExist) <==> old(
            store,
        ).has_email(email@),
        r == Err::<User, TokenFlowError>(TokenFlowError::DataNotFound) <==> !old(
            store,
        ).has_email(email@) && !(exists|i: int|
            0 <= i < old(store).roles_v().len() && (#[trigger] old(store).roles_v()[i]).name
                == RoleType::User),
        r is Ok <==> !old(store).has_email(email@) && (exists|i: int|
            0 <= i < old(store).roles_v().len() && (#[trigger] old(store).roles_v()[i]).name
                == RoleType::User),
        r is Err ==> final(store).users_v() == old(store).users_v() && final(store).tokens_v()
            == old(store).tokens_v() && final(store).next_id == old(store).next_id,
        r is Ok ==> final(store).next_id == old(store).next_id + 2,
        r matches Ok(u) ==> {
            &&& old(store).has_role(u@.role_id) && old(store).role_at(u@.role_id).name
                == RoleType::User
            &&& u@ == (UserView {
                id: old(store).next_id,
                role_id: u@.role_id,
                name: name@,
                email: email@,
                password: password_hash@,
                is_verified: false,
            })
            &&& final(store).users_v() == old(store).users_v().push(u@)
            &&& final(store).tokens_v() == old(store).tokens_v().push(
                (TokenView {
                    id: (old(store).next_id + 1) as u128,
                    user_id: old(store).next_id,
                    token: Some(token_value@),
                    action_type: ActionType::VerifyAccount,
                    used_at: None,
                    expires_at: Some((now + VERIFY_TOKEN_TTL_SECS) as u64),
                    created_at: now,
                    updated_at: now,
                }),
            )
        },
{
    if store.get_user_by_email(email.as_str()).is_some() {
        return Err(TokenFlowError::EmailExist);
    }
    let role_id = match store.get_role_id_by_name(RoleType::User) {
        None => {
            return Err(TokenFlowError::DataNotFound);
        },
        Some(id) => id,
    };
    let data = NewUserActionToken {
        token: token_value,
        action_type: ActionType::VerifyAccount,
        expires_at: now + VERIFY_TOKEN_TTL_SECS,
    };
    match store.save_user(role_id, name, email, password_hash, data, now) {
        Err(_) => Err(TokenFlowError::ServerError),
        Ok(u) => Ok(u),
    }
}

/// Verifies an account with its single-use token: looks the value up
/// among the live rows, checks the expiry, and — in one store step —
/// consumes the row and marks the user verified. Replaying a consumed
/// value fails with `TokenKeyInvalid`, exactly as an unknown one does.
pub fn verify_account(store: &mut UserStore, raw_token: &str, now: u64) -> (r: Result<
    User,
    TokenFlowError,
>)
    requires
        old(store).wf(),
        old(store).live_value_unique(raw_token@),
    ensures
        final(store).wf(),
        final(store).roles_v() == old(store).roles_v(),
        r == Err::<User, TokenFlowError>(TokenFlowError::TokenKeyInvalid) <==> !old(
            store,
        ).has_live_token(raw_token@),
        r == Err::<User, TokenFlowError>(TokenFlowError::TokenKeyExpired) <==> old(
            store,
        ).has_live_token(raw_token@) && !unexpired(old(store).live_token_at(raw_token@), now),
        r is Ok <==> old(store).has_live_token(raw_token@) && unexpired(
            old(store).live_token_at(raw_token@),
            now,
        ) && old(store).has_user(old(store).live_token_at(raw_token@).user_id),
        final(store).next_id == old(store).next_id,
        r is Err ==> final(store).users_v() == old(store).users_v() && final(store).tokens_v()
            == old(store).tokens_v(),
        r matches Ok(u) ==> {
            &&& u@ == (UserView {
                is_verified: true,
                ..old(store).user_at(old(store).live_token_at(raw_token@).user_id)
            })
            &&& final(store).users_v() == old(store).users_v().update(
                old(store).user_idx(old(store).live_token_at(raw_token@).user_id),
                u@,
            )
            &&& final(store).tokens_v() == old(store).tokens_v().update(
                old(store).token_idx(old(store).live_token_at(raw_token@).id),
                consumed(old(store).live_token_at(raw_token@), now),
            )
        },
{
    let row = match lookup_valid_token(store, raw_token, now) {
        Err(e) => {
            return Err(e);
        },
        Ok(t) => t,
    };
    match store.consume_action_token(row.id, row.user_id, UserMutation::SetVerified, now) {
        Err(_) => Err(TokenFlowError::ServerError),
        Ok(u) => Ok(u),
    }
}

/// Resets the user's password with its single-use token: looks the
/// value up among the live rows, checks the expiry, and — in one store
/// step — consumes the row and replaces the user's password hash.
pub fn reset_password(
    store: &mut UserStore,
    raw_token: &str,
    new_password_hash: String,
    now: u64,
) -> (r: Result<User, TokenFlowError>)
    requires
        old(store).wf(),
        old(store).live_value_unique(raw_token@),
    ensures
        final(store).wf(),
        final(store).roles_v() == old(store).roles_v(),
        r == Err::<User, TokenFlowError>(TokenFlowError::TokenKeyInvalid) <==> !old(
            store,
        ).has_live_token(raw_token@),
        r == Err::<User, TokenFlowError>(TokenFlowError::TokenKeyExpired) <==> old(
            store,
        ).has_live_token(raw_token@) && !unexpired(old(store).live_token_at(raw_token@), now),
        r is Ok <==> old(store).has_live_token(raw_token@) && unexpired(
            old(store).live_token_at(raw_token@),
            now,
        ) && old(store).has_user(old(store).live_token_at(raw_token@).user_id),
        final(store).next_id == old(store).next_id,
        r is Err ==> final(store).users_v() == old(store).users_v() && final(store).tokens_v()
            == old(store).tokens_v(),
        r matches Ok(u) ==> {
            &&& u@ == (UserView {
                password: new_password_hash@,
                ..old(store).user_at(old(store).live_token_at(raw_token@).user_id)
            })
            &&& final(store).users_v() == old(store).users_v().update(
                old(store).user_idx(old(store).live_token_at(raw_token@).user_id),
                u@,
            )
            &&& final(store).tokens_v() == old(store).tokens_v().update(
                old(store).token_idx(old(store).live_token_at(raw_token@).id),
                consumed(old(store).live_token_at(raw_token@), now),
            )
        },
{
    let row = match lookup_valid_token(store, raw_token, now) {
        Err(e) => {
            return Err(e);
        },
        Ok(t) => t,
    };
    match store.consume_action_token(
        row.id,
        row.user_id,
        UserMutation::SetPassword(new_password_hash),
        now,
    ) {
        Err(_) => Err(TokenFlowError::ServerError),
        Ok(u) => Ok(u),
    }
}

/// Regenerates the account-verification token: allowed only while the
/// user is not verified, and then the `(user, VerifyAccount)` row is
/// created or refreshed with the new value and a fresh 24-hour expiry —
/// replacing, never duplicating.
pub fn resend_activation(store: &mut UserStore, email: &str, token_value: String, now: u64) -> (r:
    Result<UserActionToken, TokenFlowError>)
    requires
        old(store).wf(),
        old(store).next_id < u128::MAX,
        now + VERIFY_TOKEN_TTL_SECS <= u64::MAX,
    ensures
        final(store).wf(),
        final(store).roles_v() == old(store).roles_v(),
        final(store).users_v() == old(store).users_v(),
        r == Err::<UserActionToken, TokenFlowError>(TokenFlowError::DataNotFound) <==> !old(
            store,
        ).has_email(email@),
        r == Err::<UserActionToken, TokenFlowError>(TokenFlowError::AccountActive) <==> old(
            store,
        ).has_email(email@) && old(store).user_by_email(email@).is_verified,
        r is Ok <==> old(store).has_email(email@) && !old(store).user_by_email(email@).is_verified,
        old(store).next_id <= final(store).next_id <= old(store).next_id + 1,
        r is Err ==> final(store).tokens_v() == old(store).tokens_v() && final(store).next_id
            == old(store).next_id,
        r matches Ok(t) ==> {
            &&& t@.user_id == old(store).user_by_email(email@).id
            &&& t@.action_type == ActionType::VerifyAccount
            &&& t@.token == Some(token_value@)
            &&& t@.used_at is None
            &&& t@.expires_at == Some((now + VERIFY_TOKEN_TTL_SECS) as u64)
            &&& final(store).has_pair(t@.user_id, ActionType::VerifyAccount)
            &&& final(store).pair_at(t@.user_id, ActionType::VerifyAccount) == t@
            &&& (old(store).has_pair(t@.user_id, ActionType::VerifyAccount) ==> final(store).tokens_v() == old(store).tokens_v().update(
                old(store).pair_idx(t@.user_id, ActionType::VerifyAccount),
                t@,
            ))
            &&& (!old(store).has_pair(t@.user_id, ActionType::VerifyAccount) ==> final(store).tokens_v() == old(store).tokens_v().push(t@))
        },
{
    let user = match store.get_user_by_email(email) {
        None => {
            return Err(TokenFlowError::DataNotFound);
        },
        Some(u) => u,
    };
    if user.is_verified {
        return Err(TokenFlowError::AccountActive);
    }
    let data = NewUserActionToken {
        token: token_value,
        action_type: ActionType::VerifyAccount,
        expires_at: now + VERIFY_TOKEN_TTL_SECS,
    };
    let t = store.upsert_action_token(user.id, data, now);
    Ok(t)
}

/// Starts a password reset: allowed only for a verified account, and
/// then the `(user, ResetPassword)` row is created or refreshed with
/// the new value and a fresh 2-hour expiry.
pub fn forgot_password(store: &mut UserStore, email: &str, token_value: String, now: u64) -> (r:
    Result<UserActionToken, TokenFlowError>)
    requires
        old(store).wf(),
        old(store).next_id < u128::MAX,
        now + RESET_TOKEN_TTL_SECS <= u64::MAX,
    ensures
        final(store).wf(),
        final(store).roles_v() == old(store).roles_v(),
        final(store).users_v() == old(store).users_v(),
        r == Err::<UserActionToken, TokenFlowError>(TokenFlowError::DataNotFound) <==> !old(
            store,
        ).has_email(email@),
        r == Err::<UserActionToken, TokenFlowError>(TokenFlowError::AccountNotActive) <==> old(
            store,
        ).has_email(email@) && !old(store).user_by_email(email@).is_verified,
        r is Ok <==> old(store).has_email(email@) && old(store).user_by_email(email@).is_verified,
        old(store).next_id <= final(store).next_id <= old(store).next_id + 1,
        r is Err ==> final(store).tokens_v() == old(store).tokens_v() && final(store).next_id
            == old(store).next_id,
        r matches Ok(t) ==> {
            &&& t@.user_id == old(store).user_by_email(email@).id
            &&& t@.action_type == ActionType::ResetPassword
            &&& t@.token == Some(token_value@)
            &&& t@.used_at is None
            &&& t@.expires_at == Some((now + RESET_TOKEN_TTL_SECS) as u64)
            &&& final(store).has_pair(t@.user_id, ActionType::ResetPassword)
            &&& final(store).pair_at(t@.user_id, ActionType::ResetPassword) == t@
        },
{
    let user = match store.get_user_by_email(email) {
        None => {
            return Err(TokenFlowError::DataNotFound);
        },
        Some(u) => u,
    };
    if !user.is_verified {
        return Err(TokenFlowError::AccountNotActive);
    }
    let data = NewUserActionToken {
        token: token_value,
        action_type: ActionType::ResetPassword,
        expires_at: now + RESET_TOKEN_TTL_SECS,
    };
    let t = store.upsert_action_token(user.id, data, now);
    Ok(t)
}

/// Finds the account a sign-in names and checks that it may sign in:
/// an unknown email is `WrongCredentials` — deliberately the same error
/// as a wrong password, so a caller cannot probe which emails exist —
/// and an account that never verified cannot sign in. The caller then
/// compares the presented password against the returned account's hash
/// and finishes with `sign_in_issue`.
pub fn sign_in_lookup(store: &UserStore, email: &str) -> (r: Result<User, TokenFlowError>)
    requires
        store.wf(),
    ensures
        r == Err::<User, TokenFlowError>(TokenFlowError::WrongCredentials) <==> !store.has_email(
            email@,
        ),
        r == Err::<User, TokenFlowError>(TokenFlowError::AccountNotActive) <==> store.has_email(
            email@,
        ) && !store.user_by_email(email@).is_verified,
        r is Ok <==> store.has_email(email@) && store.user_by_email(email@).is_verified,
        r matches Ok(u) ==> u@ == store.user_by_email(email@),
{
    let user = match store.get_user_by_email(email) {
        None => {
            return Err(TokenFlowError::WrongCredentials);
        },
        Some(u) => u,
    };
    if !user.is_verified {
        return Err(TokenFlowError::AccountNotActive);
    }
    Ok(user)
}

/// Finishes a sign-in once the caller has compared the presented
/// password against the account's hash: a mismatch is
/// `WrongCredentials`, and a match issues a bearer token whose subject
/// is the user's id, valid for `jwt_max_age` minutes from `now` — a
/// token the identity resolver accepts back as this user.
pub fn sign_in_issue(
    user: &User,
    password_matched: bool,
    secret: &[u8],
    jwt_max_age: u64,
    now: u64,
) -> (r: Result<String, TokenFlowError>)
    requires
        now + jwt_max_age * 60 <= u64::MAX,
    ensures
        r is Ok <==> password_matched,
        r matches Err(e) ==> e == TokenFlowError::WrongCredentials,
        r matches Ok(t) ==> {
            &&& t@ == jwt_token_of(
                uuid_string_of(user.id),
                now,
                (now + jwt_max_age * 60) as u64,
                now,
                secret@,
            )
            &&& jwt_claims_of(t@, secret@) == Some(
                (uuid_string_of(user.id), now, (now + jwt_max_age * 60) as u64, now),
            )
            &&& crate::identity::uuid_of(uuid_string_of(user.id)) == Some(user.id)
        },
{
    if !password_matched {
        return Err(TokenFlowError::WrongCredentials);
    }
    let subject = format_uuid(user.id);
    match create_token(subject.as_str(), secret, jwt_max_age, now) {
        Err(_) => Err(TokenFlowError::WrongCredentials),
        Ok(t) => Ok(t),
    }
}

/// Per `(user, action)` pair the store holds at most one row, so
/// issuing a token twice for the same pair replaces the row rather than
/// duplicating it: any two row indices carrying the pair are equal.
pub proof fn lemma_one_row_per_pair(s: UserStore, user_id: u128, at: ActionType, i: int, j: int)
    requires
        s.wf(),
        0 <= i < s.tokens_v().len(),
        0 <= j < s.tokens_v().len(),
        s.tokens_v()[i].user_id == user_id && s.tokens_v()[i].action_type == at,
        s.tokens_v()[j].user_id == user_id && s.tokens_v()[j].action_type == at,
    ensures
        i == j,
{
}

/// Consuming the only live row that carries a token value removes the
/// value from the live rows altogether: a second lookup of the same
/// value finds nothing, so replaying a consumed token fails with
/// `TokenKeyInvalid`.
pub proof fn lemma_consumed_value_not_live(pre: UserStore, post: UserStore, value: Seq<char>, now: u64)
    requires
        pre.wf(),
        pre.live_value_unique(value),
        pre.has_live_token(value),
        post.tokens_v() == pre.tokens_v().update(
            pre.token_idx(pre.live_token_at(value).id),
            consumed(pre.live_token_at(value), now),
        ),
    ensures
        !post.has_live_token(value),
{
    let k = pre.token_idx(pre.live_token_at(value).id);
    let c = choose|c: int|
        0 <= c < pre.tokens_v().len() && row_live(#[trigger] pre.tokens_v()[c])
            && pre.tokens_v()[c].token == Some(value);
    assert(pre.tokens_v()[c] == pre.live_token_at(value));
    assert(pre.tokens_v()[k].id == pre.live_token_at(value).id);
    assert(k == c);
    assert forall|i: int|
        0 <= i < post.tokens_v().len() implies !(row_live(#[trigger] post.tokens_v()[i])
        && post.tokens_v()[i].token == Some(value)) by {
        if i != k {
            assert(post.tokens_v()[i] == pre.tokens_v()[i]);
            if row_live(pre.tokens_v()[i]) && pre.tokens_v()[i].token == Some(value) {
                assert(i == c);
            }
        } else {
            assert(post.tokens_v()[k] == consumed(pre.live_token_at(value), now));
        }
    }
}

} // verus!


