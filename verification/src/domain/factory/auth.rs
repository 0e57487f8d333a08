use crate::domain::model::auth::AuthToken;
use crate::domain::model::user::UserId;
use crate::ext::random_alphanumeric_token;
use crate::text::is_ascii_alnum;
use vstd::prelude::*;

verus! {

/// Makes login tokens, and keeps the record of the tokens it made.
pub trait AuthTokenFactory {
    /// The tokens made so far, in order.
    spec fn spec_issued(&self) -> Seq<AuthToken>;

    /// A new token for the user; it is the last one made.
    fn create(&mut self, user_id: UserId) -> (r: AuthToken)
        ensures
            r.spec_user_id() == user_id,
            final(self).spec_issued() == old(self).spec_issued().push(r),
    ;
}

/// Makes tokens of 64 random ASCII letters and digits.
pub struct DefaultAuthTokenFactory {
    issued: Ghost<Seq<AuthToken>>,
}

/// A token as `DefaultAuthTokenFactory` makes them: 64 ASCII letters and digits.
pub open spec fn well_formed_token(t: Seq<char>) -> bool {
    t.len() == 64 && forall|i: int| 0 <= i < 64 ==> is_ascii_alnum(#[trigger] t[i])
}

impl DefaultAuthTokenFactory {
    /// A factory that has made no token yet.
    pub fn new() -> (r: Self)
        ensures
            r.spec_issued() == Seq::<AuthToken>::empty(),
    {
        Self { issued: Ghost(Seq::empty()) }
    }

    /// A fresh random token for the user; it is the last one made.
    pub fn create_token(&mut self, user_id: UserId) -> (r: AuthToken)
        ensures
            r.spec_user_id() == user_id,
            well_formed_token(r.spec_token()),
            final(self).spec_issued() == old(self).spec_issued().push(r),
    {
        let chars = random_alphanumeric_token();
        let token = AuthToken::new(chars, user_id);
        proof {
            self.issued@ = self.issued@.push(token);
        }
        token
    }
}

impl AuthTokenFactory for DefaultAuthTokenFactory {
    closed spec fn spec_issued(&self) -> Seq<AuthToken> {
        self.issued@
    }

    fn create(&mut self, user_id: UserId) -> (r: AuthToken) {
        self.create_token(user_id)
    }
}

} // verus!
