use crate::domain::factory::auth::AuthTokenFactory;
use crate::domain::model::auth::AuthToken;
use crate::domain::model::user::{password_matches, valid_username, Nickname, User, UserId, Username};
use crate::domain::model::UtcDateTime;
use vstd::prelude::*;

verus! {

/// A login token, as the application layer hands it out.
#[derive(Debug, Clone)]
pub struct AuthTokenData {
    token: String,
}

impl AuthTokenData {
    pub closed spec fn spec_token(&self) -> Seq<char> {
        self.token@
    }

    pub fn new(token: String) -> (r: Self)
        ensures
            r.spec_token() == token@,
    {
        Self { token }
    }

    pub fn token(&self) -> (r: &str)
        ensures
            r@ == self.spec_token(),
    {
        self.token.as_str()
    }
}

/// A user's id, as the application layer hands it out.
#[derive(Debug, Clone, Copy, PartialEq, Eq, Structural)]
pub struct UserIdData(pub UserId);

impl UserIdData {
    pub fn from_user_id(user_id: UserId) -> (r: Self)
        ensures
            r.0 == user_id,
    {
        Self(user_id)
    }

    pub fn user_id(&self) -> (r: UserId)
        ensures
            r == self.0,
    {
        self.0
    }
}

/// How much of a user to fetch.
#[derive(Debug, Clone, Copy)]
pub struct GetUserOptions {
    pub fill_uris: bool,
}

impl GetUserOptions {
    /// By default the URIs are not filled in.
    pub fn default() -> (r: Self)
        ensures
            !r.fill_uris,
    {
        Self { fill_uris: false }
    }
}

/// Why a login failed.
#[derive(Debug, Clone, Copy, PartialEq, Eq, Structural)]
pub enum LoginError {
    UserNotFound,
    InvalidPassword,
}

/// The outcome of a login attempt: the user must exist and the password
/// must match; a token is then issued.
pub open spec fn login_outcome(user_found: bool, password_ok: bool) -> Result<(), LoginError> {
    if !user_found {
        Err(LoginError::UserNotFound)
    } else if !password_ok {
        Err(LoginError::InvalidPassword)
    } else {
        Ok(())
    }
}

/// Decides a login attempt from what was found.
pub fn check_login(user_found: bool, password_ok: bool) -> (r: Result<(), LoginError>)
    ensures
        r == login_outcome(user_found, password_ok),
{
    if !user_found {
        Err(LoginError::UserNotFound)
    } else if !password_ok {
        Err(LoginError::InvalidPassword)
    } else {
        Ok(())
    }
}

/// The user that a registration creates: a local user with the given id,
/// names and creation time, whose password is the given one; `None` where
/// the password cannot be hashed.
pub fn new_local_user(id: u128, username: &str, nickname: &str, passwd: &str, now: UtcDateTime) -> (r:
    Option<User>)
    requires
        valid_username(username@),
    ensures
        r matches Some(u) ==> {
            &&& u.id == UserId(id)
            &&& u.username@ == username@
            &&& u.nickname@ == nickname@
            &&& u.created_at == now
            &&& u.host is None
            &&& u.uri is None
            &&& password_matches(u.bpasswd, passwd@)
        },
{
    let name = match Username::from_str(username) {
        Some(n) => n,
        None => vstd::pervasive::unreached(),
    };
    let nick = match Nickname::from_str(nickname) {
        Some(n) => n,
        None => vstd::pervasive::unreached(),
    };
    let mut user = User::new(UserId::from_uuid(id), name, nick, now);
    if user.set_password(passwd) {
        Some(user)
    } else {
        None
    }
}

/// A login of the user found under the username (if any) with the given
/// password: the user must exist and the password match; a token is then
/// made by the factory for that user, and that token is returned. A refused
/// login makes no token.
pub fn login_token<F: AuthTokenFactory>(user: Option<&User>, plain_passwd: &str, factory: &mut F) -> (r:
    Result<AuthToken, LoginError>)
    ensures
        match user {
            None => r == Err::<AuthToken, LoginError>(LoginError::UserNotFound)
                && final(factory).spec_issued() == old(factory).spec_issued(),
            Some(u) => if password_matches(u.bpasswd, plain_passwd@) {
                r matches Ok(t) && t.spec_user_id() == u.id && final(factory).spec_issued()
                    == old(factory).spec_issued().push(t)
            } else {
                r == Err::<AuthToken, LoginError>(LoginError::InvalidPassword)
                    && final(factory).spec_issued() == old(factory).spec_issued()
            },
        },
{
    match user {
        None => Err(LoginError::UserNotFound),
        Some(u) => {
            if !u.validate_password(plain_passwd) {
                Err(LoginError::InvalidPassword)
            } else {
                Ok(factory.create(u.id()))
            }
        },
    }
}

/// The user that a stored token authenticates, if the token is known.
pub fn token_owner(token: Option<AuthToken>) -> (r: Option<UserIdData>)
    ensures
        match token {
            None => r is None,
            Some(t) => r == Some(UserIdData(t.spec_user_id())),
        },
{
    match token {
        None => None,
        Some(t) => Some(UserIdData::from_user_id(t.user_id())),
    }
}

/// A login succeeds exactly when the user exists and the password matches;
/// a missing user is reported before a wrong password.
pub proof fn lemma_login_rules(user_found: bool, password_ok: bool)
    ensures
        login_outcome(user_found, password_ok) is Ok <==> (user_found && password_ok),
        !user_found ==> login_outcome(user_found, password_ok) == Err::<(), LoginError>(
            LoginError::UserNotFound,
        ),
        user_found && !password_ok ==> login_outcome(user_found, password_ok) == Err::<(), LoginError>(
            LoginError::InvalidPassword,
        ),
{
}

} // verus!
