use crate::domain::factory::post::{creatable, PostCreationParams};
use crate::domain::model::post::{PostContent, PostId, PostPrivacy};
use crate::domain::model::user::UserId;
use crate::domain::model::{UtcDateTime, URI};
use crate::text::concat;
use vstd::prelude::*;

verus! {

/// What a store of users answered when it could not do its work.
#[derive(Debug, Clone, PartialEq, Eq)]
pub enum RepositoryError {
    UserCreationError(String),
    UserFindError(String),
}

/// The sentence with which each kind of failure is reported.
pub open spec fn repository_error_text(e: RepositoryError) -> Seq<char> {
    match e {
        RepositoryError::UserCreationError(d) => "User creation error: "@ + d@,
        RepositoryError::UserFindError(d) => "User find error: "@ + d@,
    }
}

impl RepositoryError {
    /// The human-readable message of this error: its kind, a colon and the detail.
    pub fn message(&self) -> (r: String)
        ensures
            r@ == repository_error_text(*self),
    {
        match self {
            RepositoryError::UserCreationError(d) => concat("User creation error: ", d.as_str()),
            RepositoryError::UserFindError(d) => concat("User find error: ", d.as_str()),
        }
    }
}

/// The parameters of the post that a stored row describes: a row with a
/// reply target is a reply; a row with a repost target is a quote when it
/// has content and a repost when it has none; any other row is a plain post.
/// A row never has both targets, and every row but a repost has content.
pub fn post_params_from_row(
    id: u128,
    uri: Option<String>,
    content: Option<String>,
    poster: u128,
    privacy: PostPrivacy,
    created_at: UtcDateTime,
    reply_to: Option<u128>,
    repost_of: Option<u128>,
) -> (r: Option<PostCreationParams>)
    requires
        !(reply_to is Some && repost_of is Some),
        repost_of is None ==> content is Some,
    ensures
        r matches Some(p) && {
            &&& creatable(&p)
            &&& p.id == Some(PostId(id))
            &&& match (p.uri, uri) {
                (Some(a), Some(b)) => a@ == b@,
                (None, None) => true,
                _ => false,
            }
            &&& match (p.content, content) {
                (Some(a), Some(b)) => a@ == b@,
                (None, None) => true,
                _ => false,
            }
            &&& p.author == UserId(poster)
            &&& p.privacy == privacy
            &&& p.created_at == created_at
            &&& p.reply_to == (match reply_to {
                Some(t) => Some(PostId(t)),
                None => None,
            })
            &&& p.repost_of == (match (repost_of, content) {
                (Some(t), None) => Some(PostId(t)),
                _ => None,
            })
            &&& p.quote_of == (match (repost_of, content) {
                (Some(t), Some(_)) => Some(PostId(t)),
                _ => None,
            })
            &&& p.mentioned_users@.len() == 0
            &&& p.reply_count == 0
            &&& p.repost_count == 0
            &&& p.quote_count == 0
            &&& p.reactions@.len() == 0
        },
{
    let has_content = content.is_some();
    let (repost, quote) = match repost_of {
        Some(t) => if has_content {
            (None, Some(PostId::from_uuid(t)))
        } else {
            (Some(PostId::from_uuid(t)), None)
        },
        None => (None, None),
    };
    let uri = match uri {
        Some(u) => URI::from_str(u),
        None => None,
    };
    let content = match content {
        Some(c) => Some(PostContent::from_string(c)),
        None => None,
    };
    let reply = match reply_to {
        Some(t) => Some(PostId::from_uuid(t)),
        None => None,
    };
    Some(
        PostCreationParams {
            id: Some(PostId::from_uuid(id)),
            uri,
            content,
            author: UserId::from_uuid(poster),
            privacy,
            created_at,
            reply_to: reply,
            repost_of: repost,
            quote_of: quote,
            mentioned_users: Vec::new(),
            reply_count: 0,
            repost_count: 0,
            quote_count: 0,
            reactions: Vec::new(),
        },
    )
}

} // verus!
