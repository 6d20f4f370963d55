//! Single-use, time-bounded action tokens for account verification and
//! password reset: the record shape and its per-row invariant.
//!
//! Per `(user, action)` a row is **absent**, **active** (token and
//! expiry set, not used), **expired** (active but past its expiry) or
//! **consumed** (token and expiry nulled, `used_at` stamped). Consuming
//! is the only transition that sets `used_at`; reissuing overwrites the
//! token and expiry and clears `used_at` again.

use vstd::prelude::*;

verus! {

/// The sensitive state transition a token authorizes.
#[derive(Clone, Copy, Debug, PartialEq, Eq, Structural)]
pub enum ActionType {
    VerifyAccount,
    ResetPassword,
}

impl ActionType {
    /// The wire name of this action.
    pub open spec fn spec_value(&self) -> Seq<char> {
        match self {
            ActionType::VerifyAccount => "verify-account"@,
            ActionType::ResetPassword => "reset-password"@,
        }
    }

    /// Returns the wire name of this action.
    pub fn get_value(&self) -> (r: &str)
        ensures
            r@ == self.spec_value(),
    {
        match self {
            ActionType::VerifyAccount => "verify-account",
            ActionType::ResetPassword => "reset-password",
        }
    }
}

/// One stored action-token row.
pub struct UserActionToken {
    pub id: u128,
    pub user_id: u128,
    pub token: Option<String>,
    pub action_type: ActionType,
    pub used_at: Option<u64>,
    pub expires_at: Option<u64>,
    pub created_at: u64,
    pub updated_at: u64,
}

/// The mathematical value of a `UserActionToken` row.
pub ghost struct TokenView {
    pub id: u128,
    pub user_id: u128,
    pub token: Option<Seq<char>>,
    pub action_type: ActionType,
    pub used_at: Option<u64>,
    pub expires_at: Option<u64>,
    pub created_at: u64,
    pub updated_at: u64,
}

impl View for UserActionToken {
    type V = TokenView;

    open spec fn view(&self) -> TokenView {
        TokenView {
            id: self.id,
            user_id: self.user_id,
            token: match self.token {
                Some(t) => Some(t@),
                None => None,
            },
            action_type: self.action_type,
            used_at: self.used_at,
            expires_at: self.expires_at,
            created_at: self.created_at,
            updated_at: self.updated_at,
        }
    }
}

impl Clone for UserActionToken {
    /// Copies the row, field by field.
    fn clone(&self) -> (r: Self)
        ensures
            r@ == self@,
    {
        UserActionToken {
            id: self.id,
            user_id: self.user_id,
            token: match &self.token {
                Some(t) => Some(t.clone()),
                None => None,
            },
            action_type: self.action_type,
            used_at: self.used_at,
            expires_at: self.expires_at,
            created_at: self.created_at,
            updated_at: self.updated_at,
        }
    }
}

/// A row is live when it has not been consumed: `used_at` unset and a
/// token value present.
pub open spec fn row_live(t: TokenView) -> bool {
    t.used_at is None && t.token is Some
}

/// The mutual exclusion the store maintains on every row: a consumed
/// row has no token and no expiry, a not-yet-consumed row has both.
pub open spec fn row_wf(t: TokenView) -> bool {
    &&& t.used_at is Some ==> t.token is None && t.expires_at is None
    &&& t.used_at is None ==> t.token is Some && t.expires_at is Some
}

/// The row after it has been consumed at time `now`: the token and
/// expiry are nulled and `used_at` is stamped, in one step.
pub open spec fn consumed(t: TokenView, now: u64) -> TokenView {
    TokenView { token: None, used_at: Some(now), expires_at: None, updated_at: now, ..t }
}

/// Whether the row's expiry admits use at time `now`: an expiry must be
/// present and not yet passed. The boundary instant is admitted — a row
/// expires strictly after `expires_at`, so validation at
/// `now == expires_at` still succeeds. A missing expiry counts as
/// expired — a defensive reading; the store never produces a live row
/// without one.
pub open spec fn unexpired(t: TokenView, now: u64) -> bool {
    match t.expires_at {
        Some(e) => now <= e,
        None => false,
    }
}

/// The data a caller hands in to create or refresh a row.
pub struct NewUserActionToken {
    pub token: String,
    pub action_type: ActionType,
    pub expires_at: u64,
}

} // verus!
