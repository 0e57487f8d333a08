use super::user::UserId;
use super::{same_opt, UtcDateTime, URI};
use crate::ext::{parse_uuid, uuid_parsed, uuid_simple_string, uuid_simple_text};
pub use crate::models::PostPrivacy;
use vstd::prelude::*;

verus! {

/// A post's id: the 128-bit value of its UUID.
#[derive(Debug, Clone, Copy, PartialEq, Eq, Structural)]
pub struct PostId(pub u128);

impl PostId {
    pub fn from_uuid(uuid: u128) -> (r: Self)
        ensures
            r.0 == uuid,
    {
        Self(uuid)
    }

    /// The id written as a UUID, if the text is one.
    pub fn from_str(uuid: &str) -> (r: Option<Self>)
        ensures
            match uuid_parsed(uuid@) {
                Some(v) => r == Some(PostId(v)),
                None => r is None,
            },
    {
        match parse_uuid(uuid) {
            Some(v) => Some(Self(v)),
            None => None,
        }
    }

    pub fn id(&self) -> (r: u128)
        ensures
            r == self.0,
    {
        self.0
    }

    /// The id as 32 hex digits, which `from_str` reads back as the same id.
    pub fn to_string(&self) -> (r: String)
        ensures
            r@ == uuid_simple_text(self.0),
            uuid_parsed(r@) == Some(self.0),
    {
        uuid_simple_string(self.0)
    }
}

/// The text of a post.
#[derive(Debug)]
pub struct PostContent(String);

impl Clone for PostContent {
    fn clone(&self) -> (r: Self)
        ensures
            r@ == self@,
    {
        PostContent(self.0.clone())
    }
}

impl View for PostContent {
    type V = Seq<char>;

    closed spec fn view(&self) -> Seq<char> {
        self.0@
    }
}

impl PostContent {
    pub fn from_string(content: String) -> (r: Self)
        ensures
            r@ == content@,
    {
        Self(content)
    }

    pub fn to_str(&self) -> (r: &str)
        ensures
            r@ == self@,
    {
        self.0.as_str()
    }
}

/// The name of a reaction (an emoji or a custom name).
#[derive(Debug)]
pub struct PostReactionName(String);

impl View for PostReactionName {
    type V = Seq<char>;

    closed spec fn view(&self) -> Seq<char> {
        self.0@
    }
}

impl Clone for PostReactionName {
    fn clone(&self) -> (r: Self)
        ensures
            r@ == self@,
    {
        Self(self.0.clone())
    }
}

impl PostReactionName {
    pub fn from_string(name: String) -> (r: Self)
        ensures
            r@ == name@,
    {
        Self(name)
    }

    pub fn new(name: String) -> (r: Self)
        ensures
            r@ == name@,
    {
        Self::from_string(name)
    }

    pub fn to_str(&self) -> (r: &str)
        ensures
            r@ == self@,
    {
        self.0.as_str()
    }
}

/// How many times a post received one reaction.
#[derive(Debug)]
pub struct PostReaction {
    pub name: PostReactionName,
    pub count: i64,
}

impl Clone for PostReaction {
    fn clone(&self) -> (r: Self)
        ensures
            r.name@ == self.name@,
            r.count == self.count,
    {
        PostReaction { name: self.name.clone(), count: self.count }
    }
}

impl PostReaction {
    pub fn new(name: PostReactionName, count: i64) -> (r: Self)
        ensures
            r.name@ == name@,
            r.count == count,
    {
        PostReaction { name, count }
    }
}

/// What every kind of post has.
#[derive(Debug)]
pub struct PostCommon {
    pub id: PostId,
    pub uri: Option<URI>,
    pub author: UserId,
    pub privacy: PostPrivacy,
    pub created_at: UtcDateTime,
    pub deleted_at: Option<UtcDateTime>,
}

/// The post that a reply answers.
#[derive(Debug, Clone, Copy)]
pub struct PostReplyInfo {
    pub reply_to_id: PostId,
}

/// The post that a repost repeats.
#[derive(Debug, Clone, Copy)]
pub struct PostRepostInfo {
    pub reply_of_id: PostId,
}

/// The post that a quote cites.
#[derive(Debug, Clone, Copy)]
pub struct PostQuoteInfo {
    pub quote_of_id: PostId,
}

impl PostReplyInfo {
    pub fn new(reply_to_id: PostId) -> (r: Self)
        ensures
            r.reply_to_id == reply_to_id,
    {
        Self { reply_to_id }
    }

    pub fn id(&self) -> (r: PostId)
        ensures
            r == self.reply_to_id,
    {
        self.reply_to_id
    }
}

impl PostRepostInfo {
    pub fn new(reply_of_id: PostId) -> (r: Self)
        ensures
            r.reply_of_id == reply_of_id,
    {
        Self { reply_of_id }
    }

    pub fn id(&self) -> (r: PostId)
        ensures
            r == self.reply_of_id,
    {
        self.reply_of_id
    }
}

impl PostQuoteInfo {
    pub fn new(quote_of_id: PostId) -> (r: Self)
        ensures
            r.quote_of_id == quote_of_id,
    {
        Self { quote_of_id }
    }
}

/// A post with content of its own, possibly a reply.
#[derive(Debug)]
pub struct PostNonRepost {
    pub common: PostCommon,
    pub content: PostContent,
    pub reply_to: Option<PostReplyInfo>,
    pub mentioned_users: Vec<UserId>,
    pub reply_count: i64,
    pub repost_count: i64,
    pub quote_count: i64,
    pub reactions: Vec<PostReaction>,
}

/// A post with content of its own that cites another post.
#[derive(Debug)]
pub struct PostQuote {
    pub common: PostCommon,
    pub content: PostContent,
    pub quote_of: PostQuoteInfo,
    pub mentioned_users: Vec<UserId>,
    pub reply_count: i64,
    pub repost_count: i64,
    pub quote_count: i64,
    pub reactions: Vec<PostReaction>,
}

/// A post that repeats another post without content of its own.
#[derive(Debug)]
pub struct PostRepost {
    pub common: PostCommon,
    pub repost_of: PostRepostInfo,
}

/// A post of any kind.
#[derive(Debug)]
pub enum Post {
    Normal(PostNonRepost),
    Repost(PostRepost),
    Quote(PostQuote),
}

impl Post {
    pub open spec fn spec_common(&self) -> &PostCommon {
        match self {
            Post::Normal(p) => &p.common,
            Post::Repost(p) => &p.common,
            Post::Quote(q) => &q.common,
        }
    }

    fn common(&self) -> (r: &PostCommon)
        ensures
            r == self.spec_common(),
    {
        match self {
            Post::Normal(p) => &p.common,
            Post::Repost(p) => &p.common,
            Post::Quote(q) => &q.common,
        }
    }

    pub fn id(&self) -> (r: PostId)
        ensures
            r == self.spec_common().id,
    {
        self.common().id
    }

    pub fn author_id(&self) -> (r: UserId)
        ensures
            r == self.spec_common().author,
    {
        self.common().author
    }

    pub fn uri(&self) -> (r: Option<&URI>)
        ensures
            same_opt(r, self.spec_common().uri),
    {
        self.common().uri.as_ref()
    }

    pub fn privacy(&self) -> (r: PostPrivacy)
        ensures
            r == self.spec_common().privacy,
    {
        self.common().privacy
    }

    pub fn created_at(&self) -> (r: &UtcDateTime)
        ensures
            *r == self.spec_common().created_at,
    {
        &self.common().created_at
    }

    /// The post's own text; a repost has none.
    pub fn content(&self) -> (r: Option<&PostContent>)
        ensures
            match self {
                Post::Normal(p) => r == Some(&p.content),
                Post::Quote(q) => r == Some(&q.content),
                Post::Repost(_) => r is None,
            },
    {
        match self {
            Post::Normal(p) => Some(&p.content),
            Post::Quote(q) => Some(&q.content),
            Post::Repost(_) => None,
        }
    }

    /// The post this one replies to; only a normal post can be a reply.
    pub fn reply_to(&self) -> (r: Option<&PostReplyInfo>)
        ensures
            match self {
                Post::Normal(p) => same_opt(r, p.reply_to),
                _ => r is None,
            },
    {
        match self {
            Post::Normal(p) => p.reply_to.as_ref(),
            Post::Quote(_) => None,
            Post::Repost(_) => None,
        }
    }

    /// The post this one repeats, for a repost.
    pub fn repost_of(&self) -> (r: Option<&PostRepostInfo>)
        ensures
            match self {
                Post::Repost(p) => r == Some(&p.repost_of),
                _ => r is None,
            },
    {
        match self {
            Post::Normal(_) => None,
            Post::Quote(_) => None,
            Post::Repost(p) => Some(&p.repost_of),
        }
    }

    /// The post this one cites, for a quote.
    pub fn quote_of(&self) -> (r: Option<&PostQuoteInfo>)
        ensures
            match self {
                Post::Quote(q) => r == Some(&q.quote_of),
                _ => r is None,
            },
    {
        match self {
            Post::Normal(_) => None,
            Post::Quote(q) => Some(&q.quote_of),
            Post::Repost(_) => None,
        }
    }
}

impl PartialEq for Post {
    /// Posts are the same post when their ids are equal.
    fn eq(&self, other: &Self) -> (r: bool) {
        self.id().0 == other.id().0
    }
}

impl vstd::std_specs::cmp::PartialEqSpecImpl for Post {
    open spec fn obeys_eq_spec() -> bool {
        true
    }

    open spec fn eq_spec(&self, other: &Self) -> bool {
        self.spec_common().id == other.spec_common().id
    }
}

} // verus!
