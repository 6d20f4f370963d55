//! Request and response shapes around the authentication layer, the
//! deployment configuration, pagination arithmetic, and the request
//! validators that are plain string logic.

use vstd::prelude::*;

use crate::role::RoleType;
use crate::scan::spec_all_spaces;
use crate::store::User;

verus! {

/// The deployment configuration the components are constructed with —
/// an explicit value handed in, never ambient state.
#[derive(Clone)]
pub struct Config {
    pub port: u16,
    pub database_url: String,
    pub frontend_url: String,
    pub jwt_secret: String,
    pub jwt_max_age: i64,
    pub refresh_token_age: i64,
    pub max_connections: u32,
    pub min_connections: u32,
    pub acquire_timeout: u64,
    pub idle_timeout: u64,
    pub auth_basic_username: String,
    pub auth_basic_password: String,
    pub redis_url: String,
    pub redis_db: u32,
    pub rate_limiter_max: u32,
    pub rate_limiter_duration: i64,
}

/// The serialized shape of a success reply.
pub struct SuccessResponse<T> {
    pub status: String,
    pub message: String,
    pub data: Option<T>,
}

impl<T> SuccessResponse<T> {
    /// Builds a success reply carrying `message` and `data`.
    pub fn new(message: &str, data: Option<T>) -> (r: SuccessResponse<T>)
        ensures
            r.status@ == "success"@,
            r.message@ == message@,
            r.data == data,
    {
        SuccessResponse { status: String::from_str("success"), message: message.to_owned(), data }
    }
}

/// The serialized shape of a routing-level error reply.
pub struct ErrorRouting {
    pub status: String,
    pub message: String,
}

/// The default page size of a listing request.
pub fn default_limit() -> (r: Option<usize>)
    ensures
        r == Some(5usize),
{
    Some(5)
}

/// The default page number of a listing request.
pub fn default_page() -> (r: Option<usize>)
    ensures
        r == Some(1usize),
{
    Some(1)
}

/// The default ordering of a listing request.
pub fn default_order_by() -> (r: Option<String>)
    ensures
        r matches Some(s) && s@ == "DESC"@,
{
    Some(String::from_str("DESC"))
}

/// Number of pages needed to show `total_items` items at `limit` items
/// per page: the integer ceiling of `total_items / limit`.
pub open spec fn spec_total_pages(total_items: int, limit: int) -> int {
    (total_items + limit - 1) / limit
}

/// Pagination facts a listing reply carries along with its page.
pub struct PaginationMeta {
    pub page: i32,
    pub limit: i32,
    pub total_pages: i32,
    pub total_items: i64,
    pub has_next: bool,
    pub has_prev: bool,
}

impl PaginationMeta {
    /// Computes the pagination facts for one page of a listing:
    /// `total_pages` is the ceiling of `total_items / limit`, there is
    /// a next page while the page lies before the last one, and a
    /// previous page from the second page on.
    pub fn new(page: i32, limit: i32, total_items: i64) -> (r: PaginationMeta)
        requires
            limit >= 1,
            total_items >= 0,
            total_items + limit <= i64::MAX,
            spec_total_pages(total_items as int, limit as int) <= i32::MAX,
        ensures
            r.page == page,
            r.limit == limit,
            r.total_items == total_items,
            r.total_pages == spec_total_pages(total_items as int, limit as int),
            r.has_next == (page < r.total_pages),
            r.has_prev == (page > 1),
    {
        let total_pages = ((total_items + (limit as i64) - 1) / (limit as i64)) as i32;
        let has_next = page < total_pages;
        let has_prev = page > 1;
        PaginationMeta { page, limit, total_pages, total_items, has_next, has_prev }
    }
}

/// One page of items together with its pagination facts.
pub struct PaginatedData<T> {
    pub items: Vec<T>,
    pub pagination: PaginationMeta,
}

/// A sign-up request.
pub struct SignUpRequest {
    pub name: String,
    pub email: String,
    pub password: String,
    pub password_confirm: String,
}

/// The query of an account-verification request: the raw token value.
pub struct VerifyAccountQuery {
    pub token: String,
}

/// A request to resend the activation token.
pub struct ResendActivationRequest {
    pub email: String,
}

/// A request to start a password reset.
pub struct ForgotPasswordRequest {
    pub email: String,
}

/// The query of a password-reset request: the raw token value.
pub struct ResetPasswordQuery {
    pub token: String,
}

/// The body of a password-reset request.
pub struct ResetPasswordRequest {
    pub new_password: String,
    pub new_password_confirm: String,
}

/// A sign-in request.
pub struct SignInRequest {
    pub email: String,
    pub password: String,
}

/// A request to update the caller's profile.
pub struct UserUpdateRequest {
    pub name: String,
}

/// A request for a page of users.
pub struct UserListRequest {
    pub page: Option<usize>,
    pub limit: Option<usize>,
}

/// A request to change the caller's password.
pub struct UserPasswordUpdateRequest {
    pub old_password: String,
    pub new_password: String,
    pub new_password_confirm: String,
}

/// The listing parameters of a user search.
pub struct UserParams {
    pub limit: Option<usize>,
    pub page: Option<usize>,
    pub order_by: Option<String>,
    pub search: Option<String>,
    pub is_verified: Option<bool>,
}

/// A request to create or update a comment.
pub struct CommentRequest {
    pub content: String,
}

/// A request to create or update a post.
pub struct PostRequest {
    pub title: String,
    pub content: String,
    pub tags: Vec<String>,
}

/// The reply to a successful sign-in: the user and its fresh bearer
/// token.
pub struct SignInResponse {
    pub user: UserResponse,
    pub token: String,
}

/// A user as replies carry it, with its role resolved to a name.
pub struct UserResponse {
    pub id: u128,
    pub name: String,
    pub email: String,
    pub role: RoleType,
    pub password: String,
    pub is_verified: bool,
}

impl UserResponse {
    /// Builds the reply shape for one user and its resolved role.
    pub fn get_user_response(user: &User, role: RoleType) -> (r: UserResponse)
        ensures
            r.id == user.id,
            r.name@ == user.name@,
            r.email@ == user.email@,
            r.role == role,
            r.password@ == user.password@,
            r.is_verified == user.is_verified,
    {
        UserResponse {
            id: user.id,
            name: user.name.clone(),
            email: user.email.clone(),
            role,
            password: user.password.clone(),
            is_verified: user.is_verified,
        }
    }
}

/// The validation failure of one tag, if any: a tag must not be
/// whitespace only, and must be 4 to 20 bytes long.
pub open spec fn spec_tag_error(tag: Seq<char>) -> Option<Seq<char>> {
    if spec_all_spaces(tag) {
        Some("Tag cannot be empty."@)
    } else if vstd::utf8::encode_utf8(tag).len() < 4 {
        Some("Tag length must be at least 4 characters."@)
    } else if vstd::utf8::encode_utf8(tag).len() > 20 {
        Some("Tag length maximum cannot be greater than 20 characters."@)
    } else {
        None
    }
}

/// The validation failure of a tag list, if any: the failure of its
/// first invalid tag.
pub open spec fn spec_tags_error(tags: Seq<Seq<char>>) -> Option<Seq<char>>
    decreases tags.len(),
{
    if tags.len() == 0 {
        None
    } else {
        match spec_tag_error(tags[0]) {
            Some(e) => Some(e),
            None => spec_tags_error(tags.drop_first()),
        }
    }
}

/// Validates a post's tags: none may be whitespace only, and each must
/// be 4 to 20 bytes long. Returns the message of the first violation.
pub fn validate_tags(tags: &Vec<String>) -> (r: Result<(), String>)
    ensures
        r is Ok <==> spec_tags_error(tags@.map_values(|t: String| t@)) is None,
        r matches Err(e) ==> spec_tags_error(tags@.map_values(|t: String| t@)) == Some(e@),
{
    let n = tags.len();
    proof {
        assert(tags@.map_values(|t: String| t@).skip(0) =~= tags@.map_values(|t: String| t@));
    }
    let mut i: usize = 0;
    while i < n
        invariant
            i <= n,
            n == tags.len(),
            spec_tags_error(tags@.map_values(|t: String| t@)) == spec_tags_error(
                tags@.map_values(|t: String| t@).skip(i as int),
            ),
        decreases n - i,
    {
        let tag = &tags[i];
        let ghost tv = tags@.map_values(|t: String| t@);
        proof {
            assert(tv.skip(i as int)[0] == tv[i as int]);
            assert(tv.skip(i as int).drop_first() =~= tv.skip(i as int + 1));
            assert(tv[i as int] == tags@[i as int]@);
        }
        if crate::scan::all_spaces(tag.as_str()) {
            proof {
                assert(spec_tags_error(tv.skip(i as int)) == Some("Tag cannot be empty."@));
            }
            return Err(String::from_str("Tag cannot be empty."));
        }
        let bytes = tag.as_str().as_bytes_vec();
        let length = bytes.len();
        proof {
            assert(bytes@ == vstd::utf8::encode_utf8(tv[i as int]));
        }
        if length < 4 {
            proof {
                assert(spec_tags_error(tv.skip(i as int)) == Some(
                    "Tag length must be at least 4 characters."@,
                ));
            }
            return Err(String::from_str("Tag length must be at least 4 characters."));
        }
        if length > 20 {
            proof {
                assert(spec_tags_error(tv.skip(i as int)) == Some(
                    "Tag length maximum cannot be greater than 20 characters."@,
                ));
            }
            return Err(String::from_str("Tag length maximum cannot be greater than 20 characters."));
        }
        proof {
            assert(spec_tag_error(tv.skip(i as int)[0]) is None);
            assert(spec_tags_error(tv.skip(i as int)) == spec_tags_error(tv.skip(i as int + 1)));
        }
        i = i + 1;
    }
    proof {
        assert(tags@.map_values(|t: String| t@).skip(n as int) =~= Seq::<Seq<char>>::empty());
    }
    Ok(())
}

/// Validates a listing order: only the strings `ASC` and `DESC` name an
/// order.
pub fn validate_order_by(value: &str) -> (r: Result<(), String>)
    ensures
        r is Ok <==> value@ == "ASC"@ || value@ == "DESC"@,
        r matches Err(e) ==> e@ == "Order By must be either 'ASC' or 'DESC'"@,
{
    if str_eq(value, "ASC") || str_eq(value, "DESC") {
        Ok(())
    } else {
        Err(String::from_str("Order By must be either 'ASC' or 'DESC'"))
    }
}

/// Whether two string slices hold the same text.
fn str_eq(a: &str, b: &str) -> (r: bool)
    ensures
        r == (a@ == b@),
{
    a.to_owned() == b.to_owned()
}

} // verus!
