use super::user::UserId;
use super::UtcDateTime;
use vstd::prelude::*;

verus! {

/// The storage id of a follow relation.
#[derive(Debug, Clone, Copy, PartialEq, Eq, Structural)]
pub struct FollowId(pub i64);

impl FollowId {
    pub fn from_int(id: i64) -> (r: Self)
        ensures
            r.0 == id,
    {
        Self(id)
    }
}

/// One user following another. Its id is `None` until it has been stored.
#[derive(Debug)]
pub struct UserFollow {
    pub id: Option<FollowId>,
    pub follower: UserId,
    pub followee: UserId,
    pub follow_on: UtcDateTime,
}

impl UserFollow {
    pub fn new(follower: UserId, followee: UserId, follow_on: UtcDateTime) -> (r: Self)
        ensures
            r.id is None,
            r.follower == follower,
            r.followee == followee,
            r.follow_on == follow_on,
    {
        Self { id: None, follower, followee, follow_on }
    }

    pub fn follower(&self) -> (r: &UserId)
        ensures
            *r == self.follower,
    {
        &self.follower
    }

    pub fn followee(&self) -> (r: &UserId)
        ensures
            *r == self.followee,
    {
        &self.followee
    }

    pub fn follow_on(&self) -> (r: &UtcDateTime)
        ensures
            *r == self.follow_on,
    {
        &self.follow_on
    }

    pub fn id(&self) -> (r: Option<&FollowId>)
        ensures
            match self.id {
                Some(i) => r == Some(&i),
                None => r is None,
            },
    {
        self.id.as_ref()
    }

    pub fn set_id(&mut self, id: FollowId)
        ensures
            final(self).id == Some(id),
            final(self).follower == old(self).follower,
            final(self).followee == old(self).followee,
            final(self).follow_on == old(self).follow_on,
    {
        self.id = Some(id);
    }
}

/// Two follows are the same follow when both are stored under the same id;
/// a follow that is not stored yet equals nothing, itself included.
pub open spec fn same_follow(a: &UserFollow, b: &UserFollow) -> bool {
    match (a.id, b.id) {
        (Some(x), Some(y)) => x == y,
        _ => false,
    }
}

impl PartialEq for UserFollow {
    fn eq(&self, other: &Self) -> (r: bool) {
        match (&self.id, &other.id) {
            (Some(a), Some(b)) => a.0 == b.0,
            _ => false,
        }
    }
}

impl vstd::std_specs::cmp::PartialEqSpecImpl for UserFollow {
    open spec fn obeys_eq_spec() -> bool {
        true
    }

    open spec fn eq_spec(&self, other: &Self) -> bool {
        same_follow(self, other)
    }
}

} // verus!
