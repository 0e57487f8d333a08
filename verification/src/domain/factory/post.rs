use crate::domain::model::post::{
    Post, PostCommon, PostContent, PostId, PostNonRepost, PostPrivacy, PostQuote, PostQuoteInfo,
    PostReaction, PostReplyInfo, PostRepost, PostRepostInfo,
};
use crate::domain::model::user::UserId;
use crate::domain::model::{clone_opt_uri, UtcDateTime, URI};
use crate::domain::service::id::IDGenerationService;
use vstd::prelude::*;

verus! {

/// What a post is made from. At most one of `reply_to`, `repost_of` and
/// `quote_of` is set: none for a plain post, `reply_to` for a reply. Every
/// post but a repost has content.
pub struct PostCreationParams {
    pub id: Option<PostId>,
    pub uri: Option<URI>,
    pub content: Option<PostContent>,
    pub author: UserId,
    pub privacy: PostPrivacy,
    pub created_at: UtcDateTime,
    pub reply_to: Option<PostId>,
    pub repost_of: Option<PostId>,
    pub quote_of: Option<PostId>,
    pub mentioned_users: Vec<UserId>,
    pub reply_count: i64,
    pub repost_count: i64,
    pub quote_count: i64,
    pub reactions: Vec<PostReaction>,
}

/// The parameters name the kind of post to make, with what it needs.
pub open spec fn creatable(params: &PostCreationParams) -> bool {
    match (params.reply_to, params.repost_of, params.quote_of) {
        (_, None, None) => params.content is Some,
        (None, Some(_), None) => true,
        (None, None, Some(_)) => params.content is Some,
        _ => false,
    }
}

/// The parts every post has are taken from the parameters; a new post is
/// not deleted.
pub open spec fn common_from(c: &PostCommon, params: &PostCreationParams) -> bool {
    &&& (params.id matches Some(id) ==> c.id == id)
    &&& match (c.uri, params.uri) {
        (Some(a), Some(b)) => a@ == b@,
        (None, None) => true,
        _ => false,
    }
    &&& c.author == params.author
    &&& c.privacy == params.privacy
    &&& c.created_at == params.created_at
    &&& c.deleted_at is None
}

/// The reactions carry the same names and counts.
pub open spec fn same_reactions(a: Seq<PostReaction>, b: Seq<PostReaction>) -> bool {
    a.len() == b.len() && forall|i: int|
        0 <= i < a.len() ==> (#[trigger] a[i]).name@ == b[i].name@ && a[i].count == b[i].count
}

/// The post that the parameters describe.
pub open spec fn made_from(post: &Post, params: &PostCreationParams) -> bool {
    &&& common_from(post.spec_common(), params)
    &&& match (params.reply_to, params.repost_of, params.quote_of) {
        (reply_to, None, None) => post matches Post::Normal(p) && p.reply_to == (match reply_to {
            Some(target) => Some(PostReplyInfo { reply_to_id: target }),
            None => None,
        }) && p.content@ == params.content->0@ && p.mentioned_users@ == params.mentioned_users@
            && p.reply_count == params.reply_count && p.repost_count == params.repost_count
            && p.quote_count == params.quote_count && same_reactions(
            p.reactions@,
            params.reactions@,
        ),
        (None, Some(target), None) => post matches Post::Repost(p) && p.repost_of
            == PostRepostInfo { reply_of_id: target },
        (None, None, Some(target)) => post matches Post::Quote(q) && q.quote_of == PostQuoteInfo {
            quote_of_id: target,
        } && q.content@ == params.content->0@ && q.mentioned_users@ == params.mentioned_users@
            && q.reply_count == params.reply_count && q.repost_count == params.repost_count
            && q.quote_count == params.quote_count && same_reactions(
            q.reactions@,
            params.reactions@,
        ),
        _ => false,
    }
}

/// Makes posts.
pub trait PostFactory {
    fn create(&mut self, params: &PostCreationParams) -> (r: Post)
        requires
            creatable(params),
        ensures
            made_from(&r, params),
    ;
}

/// Makes posts, drawing ids for new ones from an id generator.
pub struct DefaultPostFactory<G: IDGenerationService> {
    pub id_generator: G,
}

impl<G: IDGenerationService> DefaultPostFactory<G> {
    pub fn new(id_generator: G) -> (r: Self)
        ensures
            r.id_generator == id_generator,
    {
        Self { id_generator }
    }
}

fn copy_reactions(v: &Vec<PostReaction>) -> (r: Vec<PostReaction>)
    ensures
        same_reactions(r@, v@),
{
    let mut out: Vec<PostReaction> = Vec::new();
    let mut i: usize = 0;
    while i < v.len()
        invariant
            i <= v@.len(),
            out@.len() == i,
            forall|j: int|
                0 <= j < i ==> (#[trigger] out@[j]).name@ == v@[j].name@ && out@[j].count
                    == v@[j].count,
        decreases v.len() - i,
    {
        out.push(v[i].clone());
        i = i + 1;
    }
    out
}

fn copy_user_ids(v: &Vec<UserId>) -> (r: Vec<UserId>)
    ensures
        r@ == v@,
{
    let mut out: Vec<UserId> = Vec::new();
    let mut i: usize = 0;
    while i < v.len()
        invariant
            i <= v@.len(),
            out@ == v@.subrange(0, i as int),
        decreases v.len() - i,
    {
        out.push(v[i]);
        assert(out@ =~= v@.subrange(0, i + 1));
        i = i + 1;
    }
    assert(v@.subrange(0, v@.len() as int) =~= v@);
    out
}

impl<G: IDGenerationService> PostFactory for DefaultPostFactory<G> {
    fn create(&mut self, params: &PostCreationParams) -> (r: Post) {
        let id = match params.id {
            Some(id) => id,
            None => self.id_generator.generate_post_id(),
        };
        let common = PostCommon {
            id,
            uri: clone_opt_uri(&params.uri),
            author: params.author,
            privacy: params.privacy,
            created_at: params.created_at,
            deleted_at: None,
        };
        match (params.reply_to, params.repost_of, params.quote_of) {
            (reply_to, None, None) => {
                let content = match &params.content {
                    Some(c) => c.clone(),
                    None => vstd::pervasive::unreached(),
                };
                let reply = match reply_to {
                    Some(target) => Some(PostReplyInfo::new(target)),
                    None => None,
                };
                Post::Normal(
                    PostNonRepost {
                        common,
                        content,
                        reply_to: reply,
                        mentioned_users: copy_user_ids(&params.mentioned_users),
                        reply_count: params.reply_count,
                        repost_count: params.repost_count,
                        quote_count: params.quote_count,
                        reactions: copy_reactions(&params.reactions),
                    },
                )
            },
            (None, Some(repost_of), None) => Post::Repost(
                PostRepost { common, repost_of: PostRepostInfo::new(repost_of) },
            ),
            (None, None, Some(quote_of)) => {
                let content = match &params.content {
                    Some(c) => c.clone(),
                    None => vstd::pervasive::unreached(),
                };
                Post::Quote(
                    PostQuote {
                        common,
                        content,
                        quote_of: PostQuoteInfo::new(quote_of),
                        mentioned_users: copy_user_ids(&params.mentioned_users),
                        reply_count: params.reply_count,
                        repost_count: params.repost_count,
                        quote_count: params.quote_count,
                        reactions: copy_reactions(&params.reactions),
                    },
                )
            },
            _ => vstd::pervasive::unreached(),
        }
    }
}

} // verus!
