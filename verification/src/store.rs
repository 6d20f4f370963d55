//! In-memory User/Role/Action-token store.
//!
//! This is an in-memory implementation of the storage interface the
//! authentication layer consumes: resolve a user by id or email, read a
//! role's permission set, and create, look up, refresh and consume
//! action-token rows. Every operation is specified against the store's
//! mathematical view, and the store maintains the invariants the layer
//! depends on: unique user ids and emails, at most one row per
//! `(user, action)` pair, and the mutual exclusion between a row's
//! token and its `used_at` stamp. Consuming a token and mutating its
//! user happen in one call, together or not at all.

use vstd::prelude::*;

use crate::action_token::{row_live, row_wf, ActionType, NewUserActionToken, TokenView, UserActionToken};
use crate::role::{Role, RoleType, RoleView};

verus! {

/// One stored user row.
pub struct User {
    pub id: u128,
    pub role_id: u128,
    pub name: String,
    pub email: String,
    pub password: String,
    pub is_verified: bool,
}

/// The mathematical value of a `User`.
pub ghost struct UserView {
    pub id: u128,
    pub role_id: u128,
    pub name: Seq<char>,
    pub email: Seq<char>,
    pub password: Seq<char>,
    pub is_verified: bool,
}

impl View for User {
    type V = UserView;

    open spec fn view(&self) -> UserView {
        UserView {
            id: self.id,
            role_id: self.role_id,
            name: self.name@,
            email: self.email@,
            password: self.password@,
            is_verified: self.is_verified,
        }
    }
}

impl Clone for User {
    /// Copies the row, field by field.
    fn clone(&self) -> (r: Self)
        ensures
            r@ == self@,
    {
        User {
            id: self.id,
            role_id: self.role_id,
            name: self.name.clone(),
            email: self.email.clone(),
            password: self.password.clone(),
            is_verified: self.is_verified,
        }
    }
}

/// The user mutation applied together with consuming an action token.
pub enum UserMutation {
    /// Mark the user verified (account verification).
    SetVerified,
    /// Replace the password hash (password reset).
    SetPassword(String),
}

/// The user row after a mutation has been applied.
pub open spec fn apply_mutation(u: UserView, m: UserMutation) -> UserView {
    match m {
        UserMutation::SetVerified => UserView { is_verified: true, ..u },
        UserMutation::SetPassword(p) => UserView { password: p@, ..u },
    }
}

/// Failure of a store operation.
#[derive(Clone, Copy, Debug, PartialEq, Eq, Structural)]
pub enum StoreError {
    /// A row this operation needs does not exist.
    NotFound,
    /// The email of a user to be created is already taken.
    DuplicateEmail,
}

/// The in-memory store.
pub struct UserStore {
    pub users: Vec<User>,
    pub roles: Vec<Role>,
    pub tokens: Vec<UserActionToken>,
    /// Source of fresh row identities; every stored id is below it.
    pub next_id: u128,
}

impl UserStore {
    /// The stored users, as mathematical values.
    pub open spec fn users_v(&self) -> Seq<UserView> {
        self.users@.map_values(|u: User| u@)
    }

    /// The stored roles, as mathematical values.
    pub open spec fn roles_v(&self) -> Seq<RoleView> {
        self.roles@.map_values(|r: Role| r@)
    }

    /// The stored action-token rows, as mathematical values.
    pub open spec fn tokens_v(&self) -> Seq<TokenView> {
        self.tokens@.map_values(|t: UserActionToken| t@)
    }

    /// The store's invariants: ids and emails identify at most one
    /// user, role ids at most one role, a `(user, action)` pair and a
    /// row id at most one token row; every row satisfies the
    /// token/`used_at` mutual exclusion; and every id is below
    /// `next_id`.
    pub open spec fn wf(&self) -> bool {
        &&& forall|i: int, j: int|
            #![trigger self.users_v()[i].id, self.users_v()[j].id]
            0 <= i < self.users_v().len() && 0 <= j < self.users_v().len()
                && self.users_v()[i].id == self.users_v()[j].id ==> i == j
        &&& forall|i: int, j: int|
            #![trigger self.users_v()[i].email, self.users_v()[j].email]
            0 <= i < self.users_v().len() && 0 <= j < self.users_v().len()
                && self.users_v()[i].email == self.users_v()[j].email ==> i == j
        &&& forall|i: int, j: int|
            #![trigger self.roles_v()[i].id, self.roles_v()[j].id]
            0 <= i < self.roles_v().len() && 0 <= j < self.roles_v().len()
                && self.roles_v()[i].id == self.roles_v()[j].id ==> i == j
        &&& forall|i: int, j: int|
            #![trigger self.tokens_v()[i], self.tokens_v()[j]]
            0 <= i < self.tokens_v().len() && 0 <= j < self.tokens_v().len()
                && self.tokens_v()[i].user_id == self.tokens_v()[j].user_id
                && self.tokens_v()[i].action_type == self.tokens_v()[j].action_type ==> i == j
        &&& forall|i: int, j: int|
            #![trigger self.tokens_v()[i].id, self.tokens_v()[j].id]
            0 <= i < self.tokens_v().len() && 0 <= j < self.tokens_v().len()
                && self.tokens_v()[i].id == self.tokens_v()[j].id ==> i == j
        &&& forall|i: int| 0 <= i < self.tokens_v().len() ==> row_wf(#[trigger] self.tokens_v()[i])
        &&& forall|i: int|
            0 <= i < self.users_v().len() ==> (#[trigger] self.users_v()[i].id) < self.next_id
        &&& forall|i: int|
            0 <= i < self.tokens_v().len() ==> (#[trigger] self.tokens_v()[i].id) < self.next_id
        &&& forall|i: int|
            0 <= i < self.roles_v().len() ==> (#[trigger] self.roles_v()[i].id) < self.next_id
        &&& forall|i: int|
            0 <= i < self.tokens_v().len() ==> (#[trigger] self.tokens_v()[i].user_id)
                < self.next_id
    }

    /// Whether a user with this id is stored.
    pub open spec fn has_user(&self, id: u128) -> bool {
        exists|i: int| 0 <= i < self.users_v().len() && (#[trigger] self.users_v()[i]).id == id
    }

    /// The index of the stored user with this id.
    pub open spec fn user_idx(&self, id: u128) -> int {
        choose|i: int| 0 <= i < self.users_v().len() && (#[trigger] self.users_v()[i]).id == id
    }

    /// The stored user with this id.
    pub open spec fn user_at(&self, id: u128) -> UserView {
        self.users_v()[self.user_idx(id)]
    }

    /// Whether a user with this email is stored.
    pub open spec fn has_email(&self, email: Seq<char>) -> bool {
        exists|i: int|
            0 <= i < self.users_v().len() && (#[trigger] self.users_v()[i]).email == email
    }

    /// The stored user with this email.
    pub open spec fn user_by_email(&self, email: Seq<char>) -> UserView {
        self.users_v()[choose|i: int|
            0 <= i < self.users_v().len() && (#[trigger] self.users_v()[i]).email == email]
    }

    /// Whether a role with this id is stored.
    pub open spec fn has_role(&self, id: u128) -> bool {
        exists|i: int| 0 <= i < self.roles_v().len() && (#[trigger] self.roles_v()[i]).id == id
    }

    /// The stored role with this id.
    pub open spec fn role_at(&self, id: u128) -> RoleView {
        self.roles_v()[choose|i: int|
            0 <= i < self.roles_v().len() && (#[trigger] self.roles_v()[i]).id == id]
    }

    /// Whether a row for this `(user, action)` pair is stored.
    pub open spec fn has_pair(&self, user_id: u128, at: ActionType) -> bool {
        exists|i: int|
            0 <= i < self.tokens_v().len() && (#[trigger] self.tokens_v()[i]).user_id == user_id
                && self.tokens_v()[i].action_type == at
    }

    /// The index of the row for this `(user, action)` pair.
    pub open spec fn pair_idx(&self, user_id: u128, at: ActionType) -> int {
        choose|i: int|
            0 <= i < self.tokens_v().len() && (#[trigger] self.tokens_v()[i]).user_id == user_id
                && self.tokens_v()[i].action_type == at
    }

    /// The row for this `(user, action)` pair.
    pub open spec fn pair_at(&self, user_id: u128, at: ActionType) -> TokenView {
        self.tokens_v()[self.pair_idx(user_id, at)]
    }

    /// Whether a token row with this row id is stored.
    pub open spec fn has_token_id(&self, id: u128) -> bool {
        exists|i: int| 0 <= i < self.tokens_v().len() && (#[trigger] self.tokens_v()[i]).id == id
    }

    /// The index of the token row with this row id.
    pub open spec fn token_idx(&self, id: u128) -> int {
        choose|i: int| 0 <= i < self.tokens_v().len() && (#[trigger] self.tokens_v()[i]).id == id
    }

    /// The token row with this row id.
    pub open spec fn token_at(&self, id: u128) -> TokenView {
        self.tokens_v()[self.token_idx(id)]
    }

    /// Whether some live (not yet consumed) row carries this raw token
    /// value.
    pub open spec fn has_live_token(&self, value: Seq<char>) -> bool {
        exists|i: int|
            0 <= i < self.tokens_v().len() && row_live(#[trigger] self.tokens_v()[i])
                && self.tokens_v()[i].token == Some(value)
    }

    /// The live row carrying this raw token value.
    pub open spec fn live_token_at(&self, value: Seq<char>) -> TokenView {
        self.tokens_v()[choose|i: int|
            0 <= i < self.tokens_v().len() && row_live(#[trigger] self.tokens_v()[i])
                && self.tokens_v()[i].token == Some(value)]
    }

    /// Whether at most one live row carries this raw token value — the
    /// working assumption of lookup by token: values are drawn at
    /// random and identify one row.
    pub open spec fn live_value_unique(&self, value: Seq<char>) -> bool {
        forall|i: int, j: int|
            #![trigger self.tokens_v()[i], self.tokens_v()[j]]
            0 <= i < self.tokens_v().len() && 0 <= j < self.tokens_v().len() && row_live(
                self.tokens_v()[i],
            ) && self.tokens_v()[i].token == Some(value) && row_live(self.tokens_v()[j])
                && self.tokens_v()[j].token == Some(value) ==> i == j
    }

    /// An empty store.
    pub fn new() -> (r: UserStore)
        ensures
            r.wf(),
            r.users_v() == Seq::<UserView>::empty(),
            r.roles_v() == Seq::<RoleView>::empty(),
            r.tokens_v() == Seq::<TokenView>::empty(),
            r.next_id == 0,
    {
        let r = UserStore { users: Vec::new(), roles: Vec::new(), tokens: Vec::new(), next_id: 0 };
        proof {
            assert(r.users_v() =~= Seq::<UserView>::empty());
            assert(r.roles_v() =~= Seq::<RoleView>::empty());
            assert(r.tokens_v() =~= Seq::<TokenView>::empty());
        }
        r
    }

    /// Resolves a user by id; `None` when no such user is stored.
    pub fn get_user_by_id(&self, user_id: u128) -> (r: Option<User>)
        requires
            self.wf(),
        ensures
            r is Some <==> self.has_user(user_id),
            r matches Some(u) ==> u@ == self.user_at(user_id),
    {
        let n = self.users.len();
        let mut i: usize = 0;
        while i < n
            invariant
                self.wf(),
                i <= n,
                n == self.users.len(),
                forall|j: int| 0 <= j < i ==> (#[trigger] self.users_v()[j]).id != user_id,
            decreases n - i,
        {
            if self.users[i].id == user_id {
                let u = self.users[i].clone();
                proof {
                    assert(self.users_v()[i as int].id == user_id);
                    let w = choose|w: int|
                        0 <= w < self.users_v().len() && (#[trigger] self.users_v()[w]).id
                            == user_id;
                    assert(w == i as int);
                }
                return Some(u);
            }
            i = i + 1;
        }
        None
    }

    /// Resolves a user by email; `None` when no such user is stored.
    pub fn get_user_by_email(&self, email: &str) -> (r: Option<User>)
        requires
            self.wf(),
        ensures
            r is Some <==> self.has_email(email@),
            r matches Some(u) ==> u@ == self.user_by_email(email@),
    {
        let e = email.to_owned();
        let n = self.users.len();
        let mut i: usize = 0;
        while i < n
            invariant
                self.wf(),
                i <= n,
                n == self.users.len(),
                e@ == email@,
                forall|j: int| 0 <= j < i ==> (#[trigger] self.users_v()[j]).email != email@,
            decreases n - i,
        {
            if self.users[i].email == e {
                let u = self.users[i].clone();
                proof {
                    assert(self.users_v()[i as int].email == email@);
                    let w = choose|w: int|
                        0 <= w < self.users_v().len() && (#[trigger] self.users_v()[w]).email
                            == email@;
                    assert(w == i as int);
                }
                return Some(u);
            }
            i = i + 1;
        }
        None
    }

    /// The permission strings granted to this role; `None` when the
    /// role is unknown, which callers treat as an infrastructure
    /// failure: they deny rather than allow.
    pub fn get_permissions_by_role(&self, role_id: u128) -> (r: Option<Vec<String>>)
        requires
            self.wf(),
        ensures
            r is Some <==> self.has_role(role_id),
            r matches Some(p) ==> p@.map_values(|s: String| s@) == self.role_at(
                role_id,
            ).permissions,
    {
        let n = self.roles.len();
        let mut i: usize = 0;
        while i < n
            invariant
                self.wf(),
                i <= n,
                n == self.roles.len(),
                forall|j: int| 0 <= j < i ==> (#[trigger] self.roles_v()[j]).id != role_id,
            decreases n - i,
        {
            if self.roles[i].id == role_id {
                let p = clone_strings(&self.roles[i].permissions);
                proof {
                    assert(self.roles_v()[i as int].id == role_id);
                    let w = choose|w: int|
                        0 <= w < self.roles_v().len() && (#[trigger] self.roles_v()[w]).id
                            == role_id;
                    assert(w == i as int);
                }
                return Some(p);
            }
            i = i + 1;
        }
        None
    }

    /// The id of the role with this name; `None` when no role has it.
    pub fn get_role_id_by_name(&self, name: RoleType) -> (r: Option<u128>)
        requires
            self.wf(),
        ensures
            r is Some <==> exists|i: int|
                0 <= i < self.roles_v().len() && (#[trigger] self.roles_v()[i]).name == name,
            r matches Some(id) ==> self.has_role(id) && self.role_at(id).name == name,
    {
        let n = self.roles.len();
        let mut i: usize = 0;
        while i < n
            invariant
                self.wf(),
                i <= n,
                n == self.roles.len(),
                forall|j: int| 0 <= j < i ==> (#[trigger] self.roles_v()[j]).name != name,
            decreases n - i,
        {
            if self.roles[i].name == name {
                let id = self.roles[i].id;
                proof {
                    assert(self.roles_v()[i as int].id == id);
                    let w = choose|w: int|
                        0 <= w < self.roles_v().len() && (#[trigger] self.roles_v()[w]).id == id;
                    assert(w == i as int);
                }
                return Some(id);
            }
            i = i + 1;
        }
        None
    }

    /// The name of the role with this id; `None` when the role is
    /// unknown.
    pub fn get_role_name_by_id(&self, role_id: u128) -> (r: Option<RoleType>)
        requires
            self.wf(),
        ensures
            r is Some <==> self.has_role(role_id),
            r matches Some(name) ==> name == self.role_at(role_id).name,
    {
        let n = self.roles.len();
        let mut i: usize = 0;
        while i < n
            invariant
                self.wf(),
                i <= n,
                n == self.roles.len(),
                forall|j: int| 0 <= j < i ==> (#[trigger] self.roles_v()[j]).id != role_id,
            decreases n - i,
        {
            if self.roles[i].id == role_id {
                let name = self.roles[i].name;
                proof {
                    assert(self.roles_v()[i as int].id == role_id);
                    let w = choose|w: int|
                        0 <= w < self.roles_v().len() && (#[trigger] self.roles_v()[w]).id
                            == role_id;
                    assert(w == i as int);
                }
                return Some(name);
            }
            i = i + 1;
        }
        None
    }

    /// Adds a role with a fresh id and the given permission strings.
    /// Roles are static per deployment; this is how a deployment is
    /// wired up.
    pub fn add_role(&mut self, name: RoleType, permissions: Vec<String>) -> (r: u128)
        requires
            old(self).wf(),
            old(self).next_id < u128::MAX,
        ensures
            final(self).wf(),
            final(self).users_v() == old(self).users_v(),
            final(self).tokens_v() == old(self).tokens_v(),
            final(self).roles_v() == old(self).roles_v().push(
                (RoleView {
                    id: old(self).next_id,
                    name: name,
                    permissions: permissions@.map_values(|s: String| s@),
                }),
            ),
            r == old(self).next_id,
            final(self).next_id == old(self).next_id + 1,
    {
        let id = self.next_id;
        self.next_id = self.next_id + 1;
        let row = Role { id, name, permissions };
        let ghost rv = row@;
        self.roles.push(row);
        proof {
            assert(self.roles_v() =~= old(self).roles_v().push(rv));
            assert(self.users_v() =~= old(self).users_v());
            assert(self.tokens_v() =~= old(self).tokens_v());
        }
        id
    }

    /// Finds the index of the row for this `(user, action)` pair.
    fn find_pair(&self, user_id: u128, at: ActionType) -> (r: Option<usize>)
        requires
            self.wf(),
        ensures
            r is Some <==> self.has_pair(user_id, at),
            r matches Some(i) ==> i as int == self.pair_idx(user_id, at),
    {
        let n = self.tokens.len();
        let mut i: usize = 0;
        while i < n
            invariant
                self.wf(),
                i <= n,
                n == self.tokens.len(),
                forall|j: int|
                    0 <= j < i ==> !((#[trigger] self.tokens_v()[j]).user_id == user_id
                        && self.tokens_v()[j].action_type == at),
            decreases n - i,
        {
            if self.tokens[i].user_id == user_id && self.tokens[i].action_type == at {
                proof {
                    assert(self.tokens_v()[i as int].user_id == user_id);
                    assert(self.tokens_v()[i as int].action_type == at);
                    let w = self.pair_idx(user_id, at);
                    assert(w == i as int);
                }
                return Some(i);
            }
            i = i + 1;
        }
        None
    }

    /// The live row carrying this raw token value, or `None` when no
    /// live row does — a consumed token is indistinguishable from one
    /// that never existed.
    pub fn get_by_token(&self, value: &str) -> (r: Option<UserActionToken>)
        requires
            self.wf(),
        ensures
            r is Some <==> self.has_live_token(value@),
            r matches Some(t) ==> {
                &&& row_live(t@)
                &&& t@.token == Some(value@)
                &&& self.has_token_id(t@.id)
                &&& self.token_at(t@.id) == t@
            },
    {
        let v = value.to_owned();
        let n = self.tokens.len();
        let mut i: usize = 0;
        while i < n
            invariant
                self.wf(),
                i <= n,
                n == self.tokens.len(),
                v@ == value@,
                forall|j: int|
                    0 <= j < i ==> !(row_live(#[trigger] self.tokens_v()[j])
                        && self.tokens_v()[j].token == Some(value@)),
            decreases n - i,
        {
            let live = match &self.tokens[i].token {
                Some(t) => self.tokens[i].used_at.is_none() && *t == v,
                None => false,
            };
            if live {
                let t = self.tokens[i].clone();
                proof {
                    assert(row_live(self.tokens_v()[i as int]));
                    assert(self.tokens_v()[i as int].token == Some(value@));
                    assert(self.tokens_v()[i as int].id == t@.id);
                    let w = self.token_idx(t@.id);
                    assert(w == i as int);
                }
                return Some(t);
            }
            i = i + 1;
        }
        None
    }

    /// Creates or refreshes the row for `(user_id, data.action_type)`:
    /// afterwards exactly one row exists for the pair, carrying the new
    /// token and expiry, with no `used_at` stamp, whatever state the
    /// pair was in before. Everything else is unchanged.
    pub fn upsert_action_token(&mut self, user_id: u128, data: NewUserActionToken, now: u64) -> (r:
        UserActionToken)
        requires
            old(self).wf(),
            old(self).has_user(user_id),
            old(self).next_id < u128::MAX,
        ensures
            final(self).wf(),
            final(self).users_v() == old(self).users_v(),
            final(self).roles_v() == old(self).roles_v(),
            old(self).has_pair(user_id, data.action_type) ==> final(self).tokens_v() == old(
                self,
            ).tokens_v().update(old(self).pair_idx(user_id, data.action_type), r@),
            !old(self).has_pair(user_id, data.action_type) ==> final(self).tokens_v() == old(
                self,
            ).tokens_v().push(r@),
            r@ == (TokenView {
                id: if old(self).has_pair(user_id, data.action_type) {
                    old(self).pair_at(user_id, data.action_type).id
                } else {
                    old(self).next_id
                },
                user_id: user_id,
                token: Some(data.token@),
                action_type: data.action_type,
                used_at: None,
                expires_at: Some(data.expires_at),
                created_at: if old(self).has_pair(user_id, data.action_type) {
                    old(self).pair_at(user_id, data.action_type).created_at
                } else {
                    now
                },
                updated_at: now,
            }),
            final(self).has_pair(user_id, data.action_type),
            final(self).pair_at(user_id, data.action_type) == r@,
            final(self).next_id == (if old(self).has_pair(user_id, data.action_type) {
                old(self).next_id as int
            } else {
                old(self).next_id + 1
            }),
    {
        proof {
            let w = self.user_idx(user_id);
            assert(self.users_v()[w].id == user_id);
        }
        match self.find_pair(user_id, data.action_type) {
            Some(i) => {
                let id = self.tokens[i].id;
                let created = self.tokens[i].created_at;
                let row = UserActionToken {
                    id,
                    user_id,
                    token: Some(data.token),
                    action_type: data.action_type,
                    used_at: None,
                    expires_at: Some(data.expires_at),
                    created_at: created,
                    updated_at: now,
                };
                let ghost rv = row@;
                let result = row.clone();
                let slot = &mut self.tokens[i];
                *slot = row;
                proof {
                    assert(self.tokens_v() =~= old(self).tokens_v().update(i as int, rv));
                    assert(self.users_v() =~= old(self).users_v());
                    assert(self.roles_v() =~= old(self).roles_v());
                    assert(self.tokens_v()[i as int].user_id == user_id);
                    assert(self.tokens_v()[i as int].action_type == data.action_type);
                    let w = self.pair_idx(user_id, data.action_type);
                    assert(w == i as int);
                }
                result
            },
            None => {
                let id = self.next_id;
                self.next_id = self.next_id + 1;
                let row = UserActionToken {
                    id,
                    user_id,
                    token: Some(data.token),
                    action_type: data.action_type,
                    used_at: None,
                    expires_at: Some(data.expires_at),
                    created_at: now,
                    updated_at: now,
                };
                let ghost rv = row@;
                let result = row.clone();
                let ghost n = old(self).tokens_v().len();
                self.tokens.push(row);
                proof {
                    assert(self.tokens_v() =~= old(self).tokens_v().push(rv));
                    assert(self.users_v() =~= old(self).users_v());
                    assert(self.roles_v() =~= old(self).roles_v());
                    assert(self.tokens_v()[n as int].user_id == user_id);
                    assert(self.tokens_v()[n as int].action_type == data.action_type);
                    let w = self.pair_idx(user_id, data.action_type);
                    assert(w == n as int);
                }
                result
            },
        }
    }

    /// Consumes the row with id `token_id` and applies `mutation` to
    /// the user with id `user_id`, in one step: the row loses its token
    /// and expiry and gains a `used_at` stamp, and the user row is
    /// updated, together or not at all. When either row is missing,
    /// nothing changes.
    pub fn consume_action_token(
        &mut self,
        token_id: u128,
        user_id: u128,
        mutation: UserMutation,
        now: u64,
    ) -> (r: Result<User, StoreError>)
        requires
            old(self).wf(),
        ensures
            final(self).wf(),
            final(self).roles_v() == old(self).roles_v(),
            final(self).next_id == old(self).next_id,
            r is Ok <==> old(self).has_token_id(token_id) && old(self).has_user(user_id),
            r matches Err(e) ==> e == StoreError::NotFound && final(self).users_v() == old(
                self,
            ).users_v() && final(self).tokens_v() == old(self).tokens_v(),
            r matches Ok(u) ==> {
                &&& u@ == apply_mutation(old(self).user_at(user_id), mutation)
                &&& final(self).users_v() == old(self).users_v().update(
                    old(self).user_idx(user_id),
                    u@,
                )
                &&& final(self).tokens_v() == old(self).tokens_v().update(
                    old(self).token_idx(token_id),
                    (TokenView {
                        token: None,
                        used_at: Some(now),
                        expires_at: None,
                        updated_at: now,
                        ..old(self).token_at(token_id)
                    }),
                )
            },
    {
        let ti = match self.find_token_id(token_id) {
            None => {
                return Err(StoreError::NotFound);
            },
            Some(i) => i,
        };
        let ui = match self.find_user_id(user_id) {
            None => {
                return Err(StoreError::NotFound);
            },
            Some(i) => i,
        };
        let ghost old_tokens = self.tokens_v();
        let trow = &mut self.tokens[ti];
        trow.token = None;
        trow.used_at = Some(now);
        trow.expires_at = None;
        trow.updated_at = now;
        let ghost mid_tokens = self.tokens_v();
        let urow = &mut self.users[ui];
        match mutation {
            UserMutation::SetVerified => {
                urow.is_verified = true;
            },
            UserMutation::SetPassword(p) => {
                urow.password = p;
            },
        }
        let u = self.users[ui].clone();
        proof {
            assert(self.tokens_v() =~= old(self).tokens_v().update(
                ti as int,
                (TokenView {
                    token: None,
                    used_at: Some(now),
                    expires_at: None,
                    updated_at: now,
                    ..old(self).token_at(token_id)
                }),
            ));
            assert(self.users_v() =~= old(self).users_v().update(ui as int, u@));
            assert(self.roles_v() =~= old(self).roles_v());
            assert(u@.email == old(self).users_v()[ui as int].email);
            assert(u@.id == old(self).users_v()[ui as int].id);
            assert(u@.role_id == old(self).users_v()[ui as int].role_id);
            assert forall|k: int| 0 <= k < self.users_v().len() && k != ui as int implies
                self.users_v()[k] == old(self).users_v()[k] by {}
        }
        Ok(u)
    }

    /// Finds the index of the token row with this row id.
    fn find_token_id(&self, token_id: u128) -> (r: Option<usize>)
        requires
            self.wf(),
        ensures
            r is Some <==> self.has_token_id(token_id),
            r matches Some(i) ==> i as int == self.token_idx(token_id),
    {
        let n = self.tokens.len();
        let mut i: usize = 0;
        while i < n
            invariant
                self.wf(),
                i <= n,
                n == self.tokens.len(),
                forall|j: int| 0 <= j < i ==> (#[trigger] self.tokens_v()[j]).id != token_id,
            decreases n - i,
        {
            if self.tokens[i].id == token_id {
                proof {
                    assert(self.tokens_v()[i as int].id == token_id);
                    let w = self.token_idx(token_id);
                    assert(w == i as int);
                }
                return Some(i);
            }
            i = i + 1;
        }
        None
    }

    /// Finds the index of the user row with this user id.
    fn find_user_id(&self, user_id: u128) -> (r: Option<usize>)
        requires
            self.wf(),
        ensures
            r is Some <==> self.has_user(user_id),
            r matches Some(i) ==> i as int == self.user_idx(user_id),
    {
        let n = self.users.len();
        let mut i: usize = 0;
        while i < n
            invariant
                self.wf(),
                i <= n,
                n == self.users.len(),
                forall|j: int| 0 <= j < i ==> (#[trigger] self.users_v()[j]).id != user_id,
            decreases n - i,
        {
            if self.users[i].id == user_id {
                proof {
                    assert(self.users_v()[i as int].id == user_id);
                    let w = self.user_idx(user_id);
                    assert(w == i as int);
                }
                return Some(i);
            }
            i = i + 1;
        }
        None
    }

    /// Creates an unverified user together with its first action-token
    /// row, in one step, as sign-up does. Fails exactly when the email
    /// is already taken, and then changes nothing.
    pub fn save_user(
        &mut self,
        role_id: u128,
        name: String,
        email: String,
        password: String,
        data: NewUserActionToken,
        now: u64,
    ) -> (r: Result<User, StoreError>)
        requires
            old(self).wf(),
            old(self).next_id + 1 < u128::MAX,
        ensures
            final(self).wf(),
            final(self).roles_v() == old(self).roles_v(),
            r is Ok <==> !old(self).has_email(email@),
            r matches Err(e) ==> e == StoreError::DuplicateEmail && final(self).users_v() == old(
                self,
            ).users_v() && final(self).tokens_v() == old(self).tokens_v() && final(self).next_id
                == old(self).next_id,
            r matches Ok(u) ==> {
                &&& u@ == (UserView {
                    id: old(self).next_id,
                    role_id: role_id,
                    name: name@,
                    email: email@,
                    password: password@,
                    is_verified: false,
                })
                &&& final(self).users_v() == old(self).users_v().push(u@)
                &&& final(self).tokens_v() == old(self).tokens_v().push(
                    (TokenView {
                        id: (old(self).next_id + 1) as u128,
                        user_id: old(self).next_id,
                        token: Some(data.token@),
                        action_type: data.action_type,
                        used_at: None,
                        expires_at: Some(data.expires_at),
                        created_at: now,
                        updated_at: now,
                    }),
                )
                &&& final(self).next_id == old(self).next_id + 2
            },
    {
        if self.get_user_by_email(email.as_str()).is_some() {
            return Err(StoreError::DuplicateEmail);
        }
        let uid = self.next_id;
        let tid = self.next_id + 1;
        self.next_id = self.next_id + 2;
        let user = User { id: uid, role_id, name, email, password, is_verified: false };
        let u = user.clone();
        let ghost uv = user@;
        self.users.push(user);
        let trow = UserActionToken {
            id: tid,
            user_id: uid,
            token: Some(data.token),
            action_type: data.action_type,
            used_at: None,
            expires_at: Some(data.expires_at),
            created_at: now,
            updated_at: now,
        };
        let ghost tv = trow@;
        self.tokens.push(trow);
        proof {
            assert(self.users_v() =~= old(self).users_v().push(uv));
            assert(self.tokens_v() =~= old(self).tokens_v().push(tv));
            assert(self.roles_v() =~= old(self).roles_v());
        }
        Ok(u)
    }
}

/// Copies a vector of strings, element by element.
fn clone_strings(v: &Vec<String>) -> (r: Vec<String>)
    ensures
        r@.map_values(|s: String| s@) == v@.map_values(|s: String| s@),
{
    let n = v.len();
    let mut r: Vec<String> = Vec::new();
    let mut i: usize = 0;
    while i < n
        invariant
            i <= n,
            n == v.len(),
            r@.len() == i,
            forall|j: int| 0 <= j < i ==> (#[trigger] r@[j])@ == v@[j]@,
        decreases n - i,
    {
        r.push(v[i].clone());
        i = i + 1;
    }
    proof {
        assert(r@.map_values(|s: String| s@) =~= v@.map_values(|s: String| s@));
    }
    r
}

} // verus!
