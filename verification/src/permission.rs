//! The authorization stage: maps an identity's role to its permission
//! set and allows or denies a request against one required permission.
//!
//! Permissions are flat strings checked by set membership — there is no
//! hierarchy and no implicit admin bypass. A missing identity is a
//! wiring bug (`UserNotAuthenticated`), distinct from the expected
//! business outcome `PermissionDenied`; a failed permission lookup is
//! `ServerError` — on infrastructure failure the request is denied.

use vstd::prelude::*;

use crate::error::ErrorMessage;
use crate::store::{User, UserStore};

verus! {

/// The permissions protected routes require, one per route.
#[derive(Clone, Copy, Debug, PartialEq, Eq, Structural)]
pub enum Permission {
    UserSelf,
    UserUpdate,
    UserList,
    UserDetail,
    UserFollow,
    UserFollowers,
    UserFollowing,
    UserFeed,
    UserDelete,
    UserChangePassword,
    PostCreate,
    PostDetail,
    PostUpdate,
    PostDelete,
    PostListByUser,
    CommentCreate,
    CommentDetail,
    CommentUpdate,
    CommentDelete,
    CommentListByPost,
}

impl Permission {
    /// The wire name of this permission.
    pub open spec fn spec_string(&self) -> Seq<char> {
        match self {
            Permission::UserSelf => "user:self"@,
            Permission::UserUpdate => "user:update"@,
            Permission::UserList => "user:list"@,
            Permission::UserDetail => "user:detail"@,
            Permission::UserFollow => "user:follow"@,
            Permission::UserFollowers => "user:followers"@,
            Permission::UserFollowing => "user:following"@,
            Permission::UserFeed => "user:feed"@,
            Permission::UserDelete => "user:delete"@,
            Permission::UserChangePassword => "user:change-password"@,
            Permission::PostCreate => "post:create"@,
            Permission::PostDetail => "post:detail"@,
            Permission::PostUpdate => "post:update"@,
            Permission::PostDelete => "post:delete"@,
            Permission::PostListByUser => "post:list-by-user"@,
            Permission::CommentCreate => "comment:create"@,
            Permission::CommentDetail => "comment:detail"@,
            Permission::CommentUpdate => "comment:update"@,
            Permission::CommentDelete => "comment:delete"@,
            Permission::CommentListByPost => "comment:list-by-post"@,
        }
    }

    /// Renders the wire name of this permission.
    pub fn to_string(&self) -> (r: String)
        ensures
            r@ == self.spec_string(),
    {
        let s: &str = match self {
            Permission::UserSelf => "user:self",
            Permission::UserUpdate => "user:update",
            Permission::UserList => "user:list",
            Permission::UserDetail => "user:detail",
            Permission::UserFollow => "user:follow",
            Permission::UserFollowers => "user:followers",
            Permission::UserFollowing => "user:following",
            Permission::UserFeed => "user:feed",
            Permission::UserDelete => "user:delete",
            Permission::UserChangePassword => "user:change-password",
            Permission::PostCreate => "post:create",
            Permission::PostDetail => "post:detail",
            Permission::PostUpdate => "post:update",
            Permission::PostDelete => "post:delete",
            Permission::PostListByUser => "post:list-by-user",
            Permission::CommentCreate => "comment:create",
            Permission::CommentDetail => "comment:detail",
            Permission::CommentUpdate => "comment:update",
            Permission::CommentDelete => "comment:delete",
            Permission::CommentListByPost => "comment:list-by-post",
        };
        String::from_str(s)
    }

    /// The permission whose wire name is `s`, or `None` for any other
    /// string.
    pub open spec fn spec_from_str(s: Seq<char>) -> Option<Permission> {
        if s == "user:self"@ {
            Some(Permission::UserSelf)
        } else if s == "user:update"@ {
            Some(Permission::UserUpdate)
        } else if s == "user:list"@ {
            Some(Permission::UserList)
        } else if s == "user:detail"@ {
            Some(Permission::UserDetail)
        } else if s == "user:follow"@ {
            Some(Permission::UserFollow)
        } else if s == "user:followers"@ {
            Some(Permission::UserFollowers)
        } else if s == "user:following"@ {
            Some(Permission::UserFollowing)
        } else if s == "user:feed"@ {
            Some(Permission::UserFeed)
        } else if s == "user:delete"@ {
            Some(Permission::UserDelete)
        } else if s == "user:change-password"@ {
            Some(Permission::UserChangePassword)
        } else if s == "post:create"@ {
            Some(Permission::PostCreate)
        } else if s == "post:detail"@ {
            Some(Permission::PostDetail)
        } else if s == "post:update"@ {
            Some(Permission::PostUpdate)
        } else if s == "post:delete"@ {
            Some(Permission::PostDelete)
        } else if s == "post:list-by-user"@ {
            Some(Permission::PostListByUser)
        } else if s == "comment:create"@ {
            Some(Permission::CommentCreate)
        } else if s == "comment:detail"@ {
            Some(Permission::CommentDetail)
        } else if s == "comment:update"@ {
            Some(Permission::CommentUpdate)
        } else if s == "comment:delete"@ {
            Some(Permission::CommentDelete)
        } else if s == "comment:list-by-post"@ {
            Some(Permission::CommentListByPost)
        } else {
            None
        }
    }

    /// Parses a wire name back into the permission it names.
    pub fn from_str(s: &str) -> (r: Option<Permission>)
        ensures
            r == Self::spec_from_str(s@),
    {
        if str_eq(s, "user:self") {
            Some(Permission::UserSelf)
        } else if str_eq(s, "user:update") {
            Some(Permission::UserUpdate)
        } else if str_eq(s, "user:list") {
            Some(Permission::UserList)
        } else if str_eq(s, "user:detail") {
            Some(Permission::UserDetail)
        } else if str_eq(s, "user:follow") {
            Some(Permission::UserFollow)
        } else if str_eq(s, "user:followers") {
            Some(Permission::UserFollowers)
        } else if str_eq(s, "user:following") {
            Some(Permission::UserFollowing)
        } else if str_eq(s, "user:feed") {
            Some(Permission::UserFeed)
        } else if str_eq(s, "user:delete") {
            Some(Permission::UserDelete)
        } else if str_eq(s, "user:change-password") {
            Some(Permission::UserChangePassword)
        } else if str_eq(s, "post:create") {
            Some(Permission::PostCreate)
        } else if str_eq(s, "post:detail") {
            Some(Permission::PostDetail)
        } else if str_eq(s, "post:update") {
            Some(Permission::PostUpdate)
        } else if str_eq(s, "post:delete") {
            Some(Permission::PostDelete)
        } else if str_eq(s, "post:list-by-user") {
            Some(Permission::PostListByUser)
        } else if str_eq(s, "comment:create") {
            Some(Permission::CommentCreate)
        } else if str_eq(s, "comment:detail") {
            Some(Permission::CommentDetail)
        } else if str_eq(s, "comment:update") {
            Some(Permission::CommentUpdate)
        } else if str_eq(s, "comment:delete") {
            Some(Permission::CommentDelete)
        } else if str_eq(s, "comment:list-by-post") {
            Some(Permission::CommentListByPost)
        } else {
            None
        }
    }
}

/// Parsing a permission's wire name yields the permission back: the
/// names are pairwise distinct, so `from_str` inverts `to_string`.
#[verifier::rlimit(60)]
pub proof fn lemma_permission_name_round_trip(p: Permission)
    ensures
        Permission::spec_from_str(p.spec_string()) == Some(p),
{
    reveal_strlit("user:self");
    reveal_strlit("user:update");
    reveal_strlit("user:list");
    reveal_strlit("user:detail");
    reveal_strlit("user:follow");
    reveal_strlit("user:followers");
    reveal_strlit("user:following");
    reveal_strlit("user:feed");
    reveal_strlit("user:delete");
    reveal_strlit("user:change-password");
    reveal_strlit("post:create");
    reveal_strlit("post:detail");
    reveal_strlit("post:update");
    reveal_strlit("post:delete");
    reveal_strlit("post:list-by-user");
    reveal_strlit("comment:create");
    reveal_strlit("comment:detail");
    reveal_strlit("comment:update");
    reveal_strlit("comment:delete");
    reveal_strlit("comment:list-by-post");
    assert(("user:self"@).len() == 9);
    assert(("user:update"@).len() == 11);
    assert(("user:list"@).len() == 9);
    assert(("user:detail"@).len() == 11);
    assert(("user:follow"@).len() == 11);
    assert(("user:followers"@).len() == 14);
    assert(("user:following"@).len() == 14);
    assert(("user:feed"@).len() == 9);
    assert(("user:delete"@).len() == 11);
    assert(("user:change-password"@).len() == 20);
    assert(("post:create"@).len() == 11);
    assert(("post:detail"@).len() == 11);
    assert(("post:update"@).len() == 11);
    assert(("post:delete"@).len() == 11);
    assert(("post:list-by-user"@).len() == 17);
    assert(("comment:create"@).len() == 14);
    assert(("comment:detail"@).len() == 14);
    assert(("comment:update"@).len() == 14);
    assert(("comment:delete"@).len() == 14);
    assert(("comment:list-by-post"@).len() == 20);
    assert(("user:self"@)[5] != ("user:list"@)[5]);
    assert(("user:self"@)[5] != ("user:feed"@)[5]);
    assert(("user:update"@)[5] != ("user:detail"@)[5]);
    assert(("user:update"@)[5] != ("user:follow"@)[5]);
    assert(("user:update"@)[5] != ("user:delete"@)[5]);
    assert(("user:update"@)[0] != ("post:create"@)[0]);
    assert(("user:update"@)[0] != ("post:detail"@)[0]);
    assert(("user:update"@)[0] != ("post:update"@)[0]);
    assert(("user:update"@)[0] != ("post:delete"@)[0]);
    assert(("user:list"@)[5] != ("user:feed"@)[5]);
    assert(("user:detail"@)[5] != ("user:follow"@)[5]);
    assert(("user:detail"@)[7] != ("user:delete"@)[7]);
    assert(("user:detail"@)[0] != ("post:create"@)[0]);
    assert(("user:detail"@)[0] != ("post:detail"@)[0]);
    assert(("user:detail"@)[0] != ("post:update"@)[0]);
    assert(("user:detail"@)[0] != ("post:delete"@)[0]);
    assert(("user:follow"@)[5] != ("user:delete"@)[5]);
    assert(("user:follow"@)[0] != ("post:create"@)[0]);
    assert(("user:follow"@)[0] != ("post:detail"@)[0]);
    assert(("user:follow"@)[0] != ("post:update"@)[0]);
    assert(("user:follow"@)[0] != ("post:delete"@)[0]);
    assert(("user:followers"@)[11] != ("user:following"@)[11]);
    assert(("user:followers"@)[0] != ("comment:create"@)[0]);
    assert(("user:followers"@)[0] != ("comment:detail"@)[0]);
    assert(("user:followers"@)[0] != ("comment:update"@)[0]);
    assert(("user:followers"@)[0] != ("comment:delete"@)[0]);
    assert(("user:following"@)[0] != ("comment:create"@)[0]);
    assert(("user:following"@)[0] != ("comment:detail"@)[0]);
    assert(("user:following"@)[0] != ("comment:update"@)[0]);
    assert(("user:following"@)[0] != ("comment:delete"@)[0]);
    assert(("user:delete"@)[0] != ("post:create"@)[0]);
    assert(("user:delete"@)[0] != ("post:detail"@)[0]);
    assert(("user:delete"@)[0] != ("post:update"@)[0]);
    assert(("user:delete"@)[0] != ("post:delete"@)[0]);
    assert(("user:change-password"@)[0] != ("comment:list-by-post"@)[0]);
    assert(("post:create"@)[5] != ("post:detail"@)[5]);
    assert(("post:create"@)[5] != ("post:update"@)[5]);
    assert(("post:create"@)[5] != ("post:delete"@)[5]);
    assert(("post:detail"@)[5] != ("post:update"@)[5]);
    assert(("post:detail"@)[7] != ("post:delete"@)[7]);
    assert(("post:update"@)[5] != ("post:delete"@)[5]);
    assert(("comment:create"@)[8] != ("comment:detail"@)[8]);
    assert(("comment:create"@)[8] != ("comment:update"@)[8]);
    assert(("comment:create"@)[8] != ("comment:delete"@)[8]);
    assert(("comment:detail"@)[8] != ("comment:update"@)[8]);
    assert(("comment:detail"@)[10] != ("comment:delete"@)[10]);
    assert(("comment:update"@)[8] != ("comment:delete"@)[8]);
    match p {
        Permission::UserSelf => {
            assert(Permission::spec_from_str(p.spec_string()) == Some(Permission::UserSelf));
        },
        Permission::UserUpdate => {
            assert(Permission::spec_from_str(p.spec_string()) == Some(Permission::UserUpdate));
        },
        Permission::UserList => {
            assert(Permission::spec_from_str(p.spec_string()) == Some(Permission::UserList));
        },
        Permission::UserDetail => {
            assert(Permission::spec_from_str(p.spec_string()) == Some(Permission::UserDetail));
        },
        Permission::UserFollow => {
            assert(Permission::spec_from_str(p.spec_string()) == Some(Permission::UserFollow));
        },
        Permission::UserFollowers => {
            assert(Permission::spec_from_str(p.spec_string()) == Some(Permission::UserFollowers));
        },
        Permission::UserFollowing => {
            assert(Permission::spec_from_str(p.spec_string()) == Some(Permission::UserFollowing));
        },
        Permission::UserFeed => {
            assert(Permission::spec_from_str(p.spec_string()) == Some(Permission::UserFeed));
        },
        Permission::UserDelete => {
            assert(Permission::spec_from_str(p.spec_string()) == Some(Permission::UserDelete));
        },
        Permission::UserChangePassword => {
            assert(Permission::spec_from_str(p.spec_string()) == Some(Permission::UserChangePassword));
        },
        Permission::PostCreate => {
            assert(Permission::spec_from_str(p.spec_string()) == Some(Permission::PostCreate));
        },
        Permission::PostDetail => {
            assert(Permission::spec_from_str(p.spec_string()) == Some(Permission::PostDetail));
        },
        Permission::PostUpdate => {
            assert(Permission::spec_from_str(p.spec_string()) == Some(Permission::PostUpdate));
        },
        Permission::PostDelete => {
            assert(Permission::spec_from_str(p.spec_string()) == Some(Permission::PostDelete));
        },
        Permission::PostListByUser => {
            assert(Permission::spec_from_str(p.spec_string()) == Some(Permission::PostListByUser));
        },
        Permission::CommentCreate => {
            assert(Permission::spec_from_str(p.spec_string()) == Some(Permission::CommentCreate));
        },
        Permission::CommentDetail => {
            assert(Permission::spec_from_str(p.spec_string()) == Some(Permission::CommentDetail));
        },
        Permission::CommentUpdate => {
            assert(Permission::spec_from_str(p.spec_string()) == Some(Permission::CommentUpdate));
        },
        Permission::CommentDelete => {
            assert(Permission::spec_from_str(p.spec_string()) == Some(Permission::CommentDelete));
        },
        Permission::CommentListByPost => {
            assert(Permission::spec_from_str(p.spec_string()) == Some(Permission::CommentListByPost));
        },
    }
}
/// Whether two string slices hold the same text.
fn str_eq(a: &str, b: &str) -> (r: bool)
    ensures
        r == (a@ == b@),
{
    a.to_owned() == b.to_owned()
}

/// The resolved identity the session stage attaches to a request.
pub struct AuthenticatedUser {
    pub user: User,
}

/// Failures of the authorization stage.
#[derive(Clone, Copy, Debug, PartialEq, Eq, Structural)]
pub enum AuthzError {
    /// No identity was attached: the session stage never ran.
    UserNotAuthenticated,
    /// The identity's role does not hold the required permission.
    PermissionDenied,
    /// The permission lookup failed; the request is denied by default.
    ServerError,
}

impl AuthzError {
    /// The public error this failure is reported as.
    pub fn to_error_message(&self) -> (r: ErrorMessage)
        ensures
            self == AuthzError::UserNotAuthenticated ==> r == ErrorMessage::UserNotAuthenticated,
            self == AuthzError::PermissionDenied ==> r == ErrorMessage::PermissionDenied,
            self == AuthzError::ServerError ==> r == ErrorMessage::ServerError,
    {
        match self {
            AuthzError::UserNotAuthenticated => ErrorMessage::UserNotAuthenticated,
            AuthzError::PermissionDenied => ErrorMessage::PermissionDenied,
            AuthzError::ServerError => ErrorMessage::ServerError,
        }
    }
}

/// Whether the permission set contains the required permission.
pub open spec fn perms_contain(perms: Seq<Seq<char>>, required: Seq<char>) -> bool {
    exists|i: int| 0 <= i < perms.len() && perms[i] == required
}

/// Whether this list of permission strings contains `required`.
pub fn contains_permission(perms: &Vec<String>, required: &str) -> (r: bool)
    ensures
        r == perms_contain(perms@.map_values(|s: String| s@), required@),
{
    let req = required.to_owned();
    let n = perms.len();
    let mut i: usize = 0;
    while i < n
        invariant
            i <= n,
            n == perms.len(),
            req@ == required@,
            forall|j: int| 0 <= j < i ==> (#[trigger] perms@[j])@ != required@,
        decreases n - i,
    {
        if perms[i] == req {
            proof {
                assert(perms@.map_values(|s: String| s@)[i as int] == required@);
            }
            return true;
        }
        i = i + 1;
    }
    false
}

/// Authorizes one request against one required permission: with no
/// identity attached the request was never authenticated
/// (`UserNotAuthenticated`); with an identity whose role is unknown the
/// lookup failed and the request is denied (`ServerError`); otherwise
/// the request is allowed exactly when the role's permission set
/// contains the required permission, and denied with `PermissionDenied`
/// when it does not.
pub fn check_permission(
    store: &UserStore,
    identity: Option<&AuthenticatedUser>,
    required: &str,
) -> (r: Result<(), AuthzError>)
    requires
        store.wf(),
    ensures
        r == Err::<(), AuthzError>(AuthzError::UserNotAuthenticated) <==> identity is None,
        identity matches Some(a) ==> {
            &&& (r == Err::<(), AuthzError>(AuthzError::ServerError) <==> !store.has_role(
                a.user.role_id,
            ))
            &&& (r is Ok <==> store.has_role(a.user.role_id) && perms_contain(
                store.role_at(a.user.role_id).permissions,
                required@,
            ))
            &&& (r == Err::<(), AuthzError>(AuthzError::PermissionDenied) <==> store.has_role(
                a.user.role_id,
            ) && !perms_contain(store.role_at(a.user.role_id).permissions, required@))
        },
{
    let auth = match identity {
        None => {
            return Err(AuthzError::UserNotAuthenticated);
        },
        Some(a) => a,
    };
    let perms = match store.get_permissions_by_role(auth.user.role_id) {
        None => {
            return Err(AuthzError::ServerError);
        },
        Some(p) => p,
    };
    if contains_permission(&perms, required) {
        Ok(())
    } else {
        Err(AuthzError::PermissionDenied)
    }
}

} // verus!
