use crate::domain::model::post::PostId;
use vstd::prelude::*;

verus! {

/// The id of a created post, as the application layer hands it out.
#[derive(Debug, Clone, Copy, PartialEq, Eq, Structural)]
pub struct PostIdData {
    pub id: PostId,
}

impl PostIdData {
    pub fn from_post_id(id: PostId) -> (r: Self)
        ensures
            r.id == id,
    {
        Self { id }
    }

    pub fn id(&self) -> (r: PostId)
        ensures
            r == self.id,
    {
        self.id
    }
}

} // verus!
