use crate::domain::model::post::PostId;
use crate::domain::model::user::UserId;
use crate::ext::{uuid_now_v7, uuid_rfc_variant, uuid_version};
use vstd::prelude::*;

verus! {

/// Hands out ids for new posts and users.
pub trait IDGenerationService {
    fn generate_post_id(&mut self) -> PostId;

    fn generate_user_id(&mut self) -> UserId;
}

/// Hands out time-ordered UUIDs (version 7, RFC variant).
pub struct V7Generator {}

impl IDGenerationService for V7Generator {
    fn generate_post_id(&mut self) -> (r: PostId)
        ensures
            uuid_version(r.0) == 7,
            uuid_rfc_variant(r.0),
    {
        PostId::from_uuid(uuid_now_v7())
    }

    fn generate_user_id(&mut self) -> (r: UserId)
        ensures
            uuid_version(r.0) == 7,
            uuid_rfc_variant(r.0),
    {
        UserId::from_uuid(uuid_now_v7())
    }
}

} // verus!
