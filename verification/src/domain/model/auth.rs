use super::user::UserId;
use vstd::prelude::*;

verus! {

/// A login token and the user it authenticates.
#[derive(Debug, Clone)]
pub struct AuthToken {
    token: String,
    user_id: UserId,
}

impl AuthToken {
    pub closed spec fn spec_token(&self) -> Seq<char> {
        self.token@
    }

    pub closed spec fn spec_user_id(&self) -> UserId {
        self.user_id
    }

    pub fn new(token: String, user_id: UserId) -> (r: Self)
        ensures
            r.spec_token() == token@,
            r.spec_user_id() == user_id,
    {
        Self { token, user_id }
    }

    pub fn token(&self) -> (r: &str)
        ensures
            r@ == self.spec_token(),
    {
        self.token.as_str()
    }

    pub fn user_id(&self) -> (r: UserId)
        ensures
            r == self.spec_user_id(),
    {
        self.user_id
    }
}

} // verus!
