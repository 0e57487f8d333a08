//! The HTTP API's own values: request bodies, error answers, the user
//! specifiers of its paths and the credentials it accepts.
use crate::models::User;
use crate::text::{
    concat, free_of, has_prefix, lemma_split_concat, lemma_split_free, split, split_char,
    starts_with, substring, views,
};
use vstd::prelude::*;

verus! {

/// A user named in an API path: by id, or by `@username[@host]`.
#[derive(Debug, Clone)]
pub enum UserSpecifier {
    ID(String),
    Username(String, Option<String>),
}

/// The value an API user specifier names.
pub enum ApiSpecifierView {
    ID(Seq<char>),
    Username(Seq<char>, Option<Seq<char>>),
}

impl View for UserSpecifier {
    type V = ApiSpecifierView;

    open spec fn view(&self) -> ApiSpecifierView {
        match self {
            UserSpecifier::ID(i) => ApiSpecifierView::ID(i@),
            UserSpecifier::Username(n, h) => ApiSpecifierView::Username(
                n@,
                crate::user_spec::opt_text(*h),
            ),
        }
    }
}

/// Why an API user specifier could not be read.
#[derive(Debug, Clone, Copy, PartialEq, Eq, Structural)]
pub enum UserSpecifierParseError {
    InvalidFormat,
}

/// How an API user specifier is read: `@name` or `@name@host` (more `@` is
/// refused); anything else is an id.
pub open spec fn parse_api_specifier(s: Seq<char>) -> Result<ApiSpecifierView, UserSpecifierParseError> {
    if has_prefix(s, "@"@) {
        let parts = split(s.drop_first(), '@');
        if parts.len() == 1 {
            Ok(ApiSpecifierView::Username(parts[0], None))
        } else if parts.len() == 2 {
            Ok(ApiSpecifierView::Username(parts[0], Some(parts[1])))
        } else {
            Err(UserSpecifierParseError::InvalidFormat)
        }
    } else {
        Ok(ApiSpecifierView::ID(s))
    }
}

/// How an API user specifier is written: the id, `@name` or `@name@host`.
pub open spec fn format_api_specifier(v: ApiSpecifierView) -> Seq<char> {
    match v {
        ApiSpecifierView::ID(i) => i,
        ApiSpecifierView::Username(n, None) => "@"@ + n,
        ApiSpecifierView::Username(n, Some(h)) => "@"@ + n + "@"@ + h,
    }
}

/// The value of a parse result.
pub open spec fn api_parse_view(r: Result<UserSpecifier, UserSpecifierParseError>) -> Result<
    ApiSpecifierView,
    UserSpecifierParseError,
> {
    match r {
        Ok(u) => Ok(u@),
        Err(e) => Err(e),
    }
}

impl UserSpecifier {
    /// Reads a user specifier from a path segment.
    pub fn parse(s: &str) -> (r: Result<Self, UserSpecifierParseError>)
        ensures
            api_parse_view(r) == parse_api_specifier(s@),
    {
        if starts_with(s, "@") {
            proof {
                reveal_strlit("@");
            }
            let n = s.unicode_len();
            let rest = substring(s, 1, n);
            assert(rest@ =~= s@.drop_first());
            let parts = split_char(rest.as_str(), '@');
            assert(views(parts@).len() == parts@.len());
            if parts.len() == 1 {
                assert(views(parts@)[0] == parts@[0]@);
                return Ok(UserSpecifier::Username(parts[0].clone(), None));
            }
            if parts.len() == 2 {
                assert(views(parts@)[0] == parts@[0]@);
                assert(views(parts@)[1] == parts@[1]@);
                return Ok(UserSpecifier::Username(parts[0].clone(), Some(parts[1].clone())));
            }
            return Err(UserSpecifierParseError::InvalidFormat);
        }
        Ok(UserSpecifier::ID(s.to_owned()))
    }

    /// Writes the specifier as it appears in a path.
    pub fn to_string(&self) -> (r: String)
        ensures
            r@ == format_api_specifier(self@),
    {
        match self {
            UserSpecifier::ID(id) => id.clone(),
            UserSpecifier::Username(username, hostname) => match hostname {
                Some(h) => {
                    let mut s = concat("@", username.as_str());
                    s.append("@");
                    s.append(h.as_str());
                    s
                },
                None => concat("@", username.as_str()),
            },
        }
    }
}

/// Writing a specifier and reading it back gives the same specifier, as long
/// as a username or host holds no `@` and an id does not start with `@`.
pub proof fn lemma_api_specifier_roundtrip(v: ApiSpecifierView)
    requires
        match v {
            ApiSpecifierView::ID(i) => !has_prefix(i, "@"@),
            ApiSpecifierView::Username(n, None) => free_of(n, '@'),
            ApiSpecifierView::Username(n, Some(h)) => free_of(n, '@') && free_of(h, '@'),
        },
    ensures
        parse_api_specifier(format_api_specifier(v)) == Ok::<ApiSpecifierView, UserSpecifierParseError>(v),
{
    reveal_strlit("@");
    match v {
        ApiSpecifierView::ID(i) => {},
        ApiSpecifierView::Username(n, None) => {
            let s = "@"@ + n;
            assert(s.subrange(0, 1) =~= "@"@);
            assert(s.drop_first() =~= n);
            lemma_split_free(n, '@');
        },
        ApiSpecifierView::Username(n, Some(h)) => {
            let s = "@"@ + n + "@"@ + h;
            assert(s.subrange(0, 1) =~= "@"@);
            assert(s.drop_first() =~= n + seq!['@'] + h);
            lemma_split_concat(n, h, '@');
            lemma_split_free(n, '@');
            lemma_split_free(h, '@');
        },
    }
}

/// The JSON error answer: an HTTP status and a message.
#[derive(Debug, Clone)]
pub struct ErrorResponse {
    pub message: String,
    pub status: i32,
}

impl ErrorResponse {
    pub fn new(status: i32, message: String) -> (r: Self)
        ensures
            r.status == status,
            r.message@ == message@,
    {
        Self { message, status }
    }

    pub fn new_status(status: i32, message: &str) -> (r: Self)
        ensures
            r.status == status,
            r.message@ == message@,
    {
        Self { message: message.to_owned(), status }
    }

    /// The answer as a failed handler result.
    pub fn into_result<T>(self) -> (r: Result<T, ErrorResponse>)
        ensures
            r matches Err(e) && e == self,
    {
        Err(self)
    }
}

/// Errors that know the HTTP status and message they are answered with.
pub trait HasStatusCode {
    fn status_code(&self) -> i32;

    fn message(&self) -> String;
}

/// The request's authenticated user, if any.
#[derive(Debug)]
pub struct AuthUser {
    pub authed_user: Option<User>,
}

impl AuthUser {
    pub fn from_user(user: User) -> (r: Self)
        ensures
            r.authed_user == Some(user),
    {
        Self { authed_user: Some(user) }
    }

    /// The authenticated user; a request without one is answered 401.
    pub fn must_auth(&self) -> (r: Result<&User, ErrorResponse>)
        ensures
            match self.authed_user {
                Some(u) => r == Ok::<&User, ErrorResponse>(&u),
                None => r matches Err(e) && e.status == 401 && e.message@ == "unauthorized"@,
            },
    {
        match &self.authed_user {
            Some(u) => Ok(u),
            None => Err(ErrorResponse::new_status(401, "unauthorized")),
        }
    }
}

/// The token of an `Authorization: Bearer <token>` header value.
pub open spec fn bearer_token_of(header_value: Seq<char>) -> Option<Seq<char>> {
    if has_prefix(header_value, "Bearer "@) {
        Some(header_value.subrange(7, header_value.len() as int))
    } else {
        None
    }
}

/// The bearer token of an `Authorization` header value; `None` when it is
/// not a bearer credential (answered 401).
pub fn bearer_token(header_value: &str) -> (r: Option<String>)
    ensures
        crate::ids::opt_view(r) == bearer_token_of(header_value@),
{
    if starts_with(header_value, "Bearer ") {
        proof {
            reveal_strlit("Bearer ");
        }
        let n = header_value.unicode_len();
        Some(substring(header_value, 7, n))
    } else {
        None
    }
}

/// The body of a registration request.
#[derive(Debug, Clone)]
pub struct RegisterRequest {
    pub username: String,
    pub nickname: String,
    pub password: String,
}

/// The answer to a registration.
#[derive(Debug, Clone)]
pub struct RegisterResponse {
    pub user_id: String,
}

/// The body of a login request.
#[derive(Debug, Clone)]
pub struct LoginRequest {
    pub username: String,
    pub password: String,
}

/// The answer to a login.
#[derive(Debug, Clone)]
pub struct LoginResponse {
    pub token: String,
}

/// The body of a post request.
#[derive(Debug, Clone)]
pub struct PostCreateRequest {
    pub content: Option<String>,
    pub privacy: String,
    pub reply_to_id: Option<String>,
    pub repost_of_id: Option<String>,
}

/// The answer to a created post.
#[derive(Debug, Clone)]
pub struct PostCreateResponse {
    pub post_id: String,
}

/// The query of a webfinger request.
#[derive(Debug, Clone)]
pub struct WebfingerQuery {
    pub resource: String,
}

/// The API server's configuration.
#[derive(Debug, Clone)]
pub struct AppConfig {
    pub database: DatabaseConfig,
    pub base_url: String,
    pub dev: bool,
    pub upload_dir: String,
}

/// Where the API server's database is.
#[derive(Debug, Clone)]
pub struct DatabaseConfig {
    pub url: String,
}

/// A handler's failure with an internal error answer.
pub fn ise<S>(error: ErrorResponse) -> (r: Result<S, ErrorResponse>)
    ensures
        r matches Err(e) && e == error,
{
    Err(error)
}

/// How a service failure is answered: a failure the handler did not expect
/// is an internal error (500); a general failure carries its own status and
/// message.
pub fn error_response_of<T>(e: crate::services::ServiceError<T>) -> (r: ErrorResponse)
    ensures
        match e {
            crate::services::ServiceError::SpecificError(_) => r.status == 500 && r.message@
                == "internal server error"@,
            crate::services::ServiceError::MiscError(m) => r.status == m.status && r.message@
                == m.message@,
        },
{
    match e {
        crate::services::ServiceError::SpecificError(_) => ErrorResponse::new_status(
            500,
            "internal server error",
        ),
        crate::services::ServiceError::MiscError(m) => ErrorResponse::new(m.status, m.message),
    }
}

/// A `Bearer` authorization header carries the token after `Bearer `.
pub proof fn lemma_bearer_token(token: Seq<char>)
    ensures
        bearer_token_of("Bearer "@ + token) == Some(token),
{
    reveal_strlit("Bearer ");
    let h = "Bearer "@ + token;
    assert(h.subrange(0, 7) =~= "Bearer "@);
    assert(h.subrange(7, h.len() as int) =~= token);
}

} // verus!
