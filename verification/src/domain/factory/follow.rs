use crate::domain::model::follow::UserFollow;
use crate::domain::model::user::UserId;
use crate::domain::model::UtcDateTime;
use vstd::prelude::*;

verus! {

/// Makes follows.
pub trait UserFollowFactory {
    fn create(&mut self, follower_id: UserId, followee_id: UserId) -> (r: UserFollow)
        ensures
            r.id is None,
            r.follower == follower_id,
            r.followee == followee_id,
    ;
}

/// Makes follows that start now.
pub struct DefaultUserFollowFactory {}

impl DefaultUserFollowFactory {
    pub fn new() -> (r: Self) {
        Self {}
    }
}

impl UserFollowFactory for DefaultUserFollowFactory {
    fn create(&mut self, follower_id: UserId, followee_id: UserId) -> (r: UserFollow) {
        UserFollow::new(follower_id, followee_id, UtcDateTime::now())
    }
}

} // verus!
