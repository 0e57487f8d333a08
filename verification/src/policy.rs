//! Who may see a post, and which reposts and replies are allowed.
use crate::models::PostPrivacy;
use crate::services::{ServiceError, UserFindError};
use crate::text::{contains_string, views};
use vstd::prelude::*;

verus! {

/// Why a post could not be created.
#[derive(Debug, Clone, Copy, PartialEq, Eq, Structural)]
pub enum PostCreateError {
    PosterNotFound,
    RepostOfNotFound,
    ReplyToNotFound,
    AlreadyExists,
    DisallowedPrivacyForRepost,
    NestedRepost,
    PostNotFound,
}

/// What decides whether a viewer may see a post.
#[derive(Debug, Clone, Copy, PartialEq, Eq, Structural)]
pub enum VisibilityRequirement {
    /// The viewer may see it.
    Visible,
    /// The viewer may not see it.
    Hidden,
    /// The viewer may see it if they follow the poster.
    IfFollower,
    /// The viewer may see it if the post mentions them.
    IfMentioned,
}

/// The rule: public and unlisted posts are visible to everyone, in every
/// mode. Otherwise, in repost mode (a repost is being made of it) the post is
/// hidden; the poster sees their own post; a followers-only post is seen by
/// the poster's followers, and a private post by the users it mentions.
pub open spec fn visibility_requirement(
    viewer_is_poster: bool,
    privacy: PostPrivacy,
    repost_mode: bool,
) -> VisibilityRequirement {
    match privacy {
        PostPrivacy::Public | PostPrivacy::Unlisted => VisibilityRequirement::Visible,
        PostPrivacy::Followers => if repost_mode {
            VisibilityRequirement::Hidden
        } else if viewer_is_poster {
            VisibilityRequirement::Visible
        } else {
            VisibilityRequirement::IfFollower
        },
        PostPrivacy::Private => if repost_mode {
            VisibilityRequirement::Hidden
        } else if viewer_is_poster {
            VisibilityRequirement::Visible
        } else {
            VisibilityRequirement::IfMentioned
        },
    }
}

/// Whether the viewer may see the post, given the facts the requirement asks for.
pub open spec fn visible(
    viewer_is_poster: bool,
    privacy: PostPrivacy,
    repost_mode: bool,
    viewer_follows_poster: bool,
    viewer_is_mentioned: bool,
) -> bool {
    match visibility_requirement(viewer_is_poster, privacy, repost_mode) {
        VisibilityRequirement::Visible => true,
        VisibilityRequirement::Hidden => false,
        VisibilityRequirement::IfFollower => viewer_follows_poster,
        VisibilityRequirement::IfMentioned => viewer_is_mentioned,
    }
}

/// What must be known to decide whether a viewer may see a post; the caller
/// looks up the follow or the mention only when asked to.
pub fn check_visibility(viewer_is_poster: bool, privacy: PostPrivacy, repost_mode: bool) -> (r:
    VisibilityRequirement)
    ensures
        r == visibility_requirement(viewer_is_poster, privacy, repost_mode),
        repost_mode && (privacy == PostPrivacy::Followers || privacy == PostPrivacy::Private) ==> r
            == VisibilityRequirement::Hidden,
        (privacy == PostPrivacy::Public || privacy == PostPrivacy::Unlisted) ==> r
            == VisibilityRequirement::Visible,
{
    if viewer_is_poster {
        return match privacy {
            PostPrivacy::Public | PostPrivacy::Unlisted => VisibilityRequirement::Visible,
            _ => if repost_mode {
                VisibilityRequirement::Hidden
            } else {
                VisibilityRequirement::Visible
            },
        };
    }
    match privacy {
        PostPrivacy::Public | PostPrivacy::Unlisted => VisibilityRequirement::Visible,
        PostPrivacy::Followers => {
            if repost_mode {
                return VisibilityRequirement::Hidden;
            }
            VisibilityRequirement::IfFollower
        },
        PostPrivacy::Private => {
            if repost_mode {
                return VisibilityRequirement::Hidden;
            }
            VisibilityRequirement::IfMentioned
        },
    }
}

/// Whether the viewer may see the post, once the facts are known.
pub fn resolve_visibility(
    requirement: VisibilityRequirement,
    viewer_follows_poster: bool,
    viewer_is_mentioned: bool,
) -> (r: bool)
    ensures
        r == match requirement {
            VisibilityRequirement::Visible => true,
            VisibilityRequirement::Hidden => false,
            VisibilityRequirement::IfFollower => viewer_follows_poster,
            VisibilityRequirement::IfMentioned => viewer_is_mentioned,
        },
{
    match requirement {
        VisibilityRequirement::Visible => true,
        VisibilityRequirement::Hidden => false,
        VisibilityRequirement::IfFollower => viewer_follows_poster,
        VisibilityRequirement::IfMentioned => viewer_is_mentioned,
    }
}

/// Public and unlisted posts are visible to every viewer, in every mode.
pub proof fn lemma_open_posts_visible(
    viewer_is_poster: bool,
    privacy: PostPrivacy,
    repost_mode: bool,
    follows: bool,
    mentioned: bool,
)
    requires
        privacy == PostPrivacy::Public || privacy == PostPrivacy::Unlisted,
    ensures
        visible(viewer_is_poster, privacy, repost_mode, follows, mentioned),
{
}

/// A post that may be reposted may also be viewed.
pub proof fn lemma_repost_visibility_implies_view(
    viewer_is_poster: bool,
    privacy: PostPrivacy,
    follows: bool,
    mentioned: bool,
)
    ensures
        visible(viewer_is_poster, privacy, true, follows, mentioned) ==> visible(
            viewer_is_poster,
            privacy,
            false,
            follows,
            mentioned,
        ),
{
}

/// A poster can always view their own post, and can repost it exactly when
/// it is public or unlisted.
pub proof fn lemma_own_posts(privacy: PostPrivacy, follows: bool, mentioned: bool)
    ensures
        visible(true, privacy, false, follows, mentioned),
        visible(true, privacy, true, follows, mentioned) <==> (privacy == PostPrivacy::Public
            || privacy == PostPrivacy::Unlisted),
{
}

/// In repost mode a followers-only or private post is hidden from every
/// viewer, its poster included, whatever they follow or are mentioned in.
pub proof fn lemma_restricted_posts_not_repostable(
    viewer_is_poster: bool,
    privacy: PostPrivacy,
    follows: bool,
    mentioned: bool,
)
    requires
        privacy == PostPrivacy::Followers || privacy == PostPrivacy::Private,
    ensures
        !visible(viewer_is_poster, privacy, true, follows, mentioned),
{
}

/// Outside repost mode, another user sees a followers-only post exactly when
/// they follow its poster, and a private post exactly when it mentions them.
pub proof fn lemma_restricted_posts_viewers(follows: bool, mentioned: bool)
    ensures
        visible(false, PostPrivacy::Followers, false, follows, mentioned) == follows,
        visible(false, PostPrivacy::Private, false, follows, mentioned) == mentioned,
{
}

/// The outcome of creating a repost or a quote of a target post: the target
/// must be visible to the poster (in repost mode for a repost), a repost
/// must itself be public or unlisted, and the target may not be a repost.
pub open spec fn repost_outcome(
    target_visible: bool,
    is_repost: bool,
    privacy: PostPrivacy,
    target_is_repost: bool,
) -> Result<(), PostCreateError> {
    if !target_visible {
        Err(PostCreateError::RepostOfNotFound)
    } else if is_repost && (privacy == PostPrivacy::Followers || privacy == PostPrivacy::Private) {
        Err(PostCreateError::DisallowedPrivacyForRepost)
    } else if target_is_repost {
        Err(PostCreateError::NestedRepost)
    } else {
        Ok(())
    }
}

/// Checks a repost (no content) or quote (with content) of a target post.
pub fn check_repost(
    target_visible: bool,
    is_repost: bool,
    privacy: PostPrivacy,
    target_is_repost: bool,
) -> (r: Result<(), PostCreateError>)
    ensures
        r == repost_outcome(target_visible, is_repost, privacy, target_is_repost),
        target_visible && target_is_repost && !(is_repost && (privacy == PostPrivacy::Followers
            || privacy == PostPrivacy::Private)) ==> r == Err::<(), PostCreateError>(
            PostCreateError::NestedRepost,
        ),
{
    if !target_visible {
        return Err(PostCreateError::RepostOfNotFound);
    }
    if is_repost {
        match privacy {
            PostPrivacy::Followers | PostPrivacy::Private => {
                return Err(PostCreateError::DisallowedPrivacyForRepost);
            },
            _ => {},
        }
    }
    if target_is_repost {
        return Err(PostCreateError::NestedRepost);
    }
    Ok(())
}

/// The outcome of creating a reply: the target must be visible to the poster
/// and may not be a repost.
pub open spec fn reply_outcome(target_visible: bool, target_is_repost: bool) -> Result<
    (),
    PostCreateError,
> {
    if !target_visible {
        Err(PostCreateError::ReplyToNotFound)
    } else if target_is_repost {
        Err(PostCreateError::NestedRepost)
    } else {
        Ok(())
    }
}

/// Checks a reply to a target post.
pub fn check_reply(target_visible: bool, target_is_repost: bool) -> (r: Result<(), PostCreateError>)
    ensures
        r == reply_outcome(target_visible, target_is_repost),
        target_visible && target_is_repost ==> r == Err::<(), PostCreateError>(
            PostCreateError::NestedRepost,
        ),
{
    if !target_visible {
        return Err(PostCreateError::ReplyToNotFound);
    }
    if target_is_repost {
        return Err(PostCreateError::NestedRepost);
    }
    Ok(())
}

/// A repost or quote of a visible target that is itself a repost is refused
/// as nested, unless it is a repost with a restricted privacy (refused for
/// that first); one of a target that is not visible is refused as not found.
pub proof fn lemma_nested_reposts_refused(
    target_visible: bool,
    is_repost: bool,
    privacy: PostPrivacy,
    target_is_repost: bool,
)
    ensures
        !target_visible ==> repost_outcome(target_visible, is_repost, privacy, target_is_repost)
            == Err::<(), PostCreateError>(PostCreateError::RepostOfNotFound),
        target_visible && target_is_repost && !(is_repost && (privacy == PostPrivacy::Followers
            || privacy == PostPrivacy::Private)) ==> repost_outcome(
            target_visible,
            is_repost,
            privacy,
            target_is_repost,
        ) == Err::<(), PostCreateError>(PostCreateError::NestedRepost),
        repost_outcome(target_visible, is_repost, privacy, target_is_repost) is Ok <==> (
        target_visible && !target_is_repost && !(is_repost && (privacy == PostPrivacy::Followers
            || privacy == PostPrivacy::Private))),
{
}

/// A reply to a target that is not visible is refused as not found, and one
/// to a repost as nested; any other reply is allowed.
pub proof fn lemma_reply_rules(target_visible: bool, target_is_repost: bool)
    ensures
        !target_visible ==> reply_outcome(target_visible, target_is_repost) == Err::<
            (),
            PostCreateError,
        >(PostCreateError::ReplyToNotFound),
        target_visible && target_is_repost ==> reply_outcome(target_visible, target_is_repost)
            == Err::<(), PostCreateError>(PostCreateError::NestedRepost),
        reply_outcome(target_visible, target_is_repost) is Ok <==> (target_visible && !target_is_repost),
{
}

/// No repost is ever followers-only or private.
pub proof fn lemma_reposts_are_open(
    target_visible: bool,
    privacy: PostPrivacy,
    target_is_repost: bool,
)
    requires
        repost_outcome(target_visible, true, privacy, target_is_repost) is Ok,
    ensures
        privacy == PostPrivacy::Public || privacy == PostPrivacy::Unlisted,
{
}

/// The HTTP status with which a refused post is answered: a target that
/// cannot be found or seen is 404, a forbidden repost is 400, anything else
/// is an internal error.
pub open spec fn post_create_error_status(e: PostCreateError) -> i32 {
    match e {
        PostCreateError::RepostOfNotFound | PostCreateError::ReplyToNotFound
        | PostCreateError::PostNotFound => 404,
        PostCreateError::DisallowedPrivacyForRepost | PostCreateError::NestedRepost => 400,
        _ => 500,
    }
}

impl PostCreateError {
    /// The HTTP status with which the refusal is answered.
    pub fn status_code(&self) -> (r: i32)
        ensures
            r == post_create_error_status(*self),
    {
        match self {
            PostCreateError::RepostOfNotFound | PostCreateError::ReplyToNotFound
            | PostCreateError::PostNotFound => 404,
            PostCreateError::DisallowedPrivacyForRepost | PostCreateError::NestedRepost => 400,
            _ => 500,
        }
    }
}

/// The kinds of post that a request to `/post` can create.
#[derive(Debug, Clone, Copy, PartialEq, Eq, Structural)]
pub enum PostKind {
    Normal,
    Quote,
    Repost,
    Reply,
}

/// Which post a request to `/post` creates, from which of its fields are
/// set: neither target makes a normal post (content required), a repost
/// target with content makes a quote and without a repost, a reply target
/// makes a reply (content required); both targets at once are refused.
/// `Err` carries the message of the 400 answer.
pub open spec fn post_request_kind(has_repost_of: bool, has_reply_to: bool, has_content: bool) -> Result<
    PostKind,
    Seq<char>,
> {
    if has_repost_of && has_reply_to {
        Err("repost_of_id and reply_to_id cannot be set at the same time"@)
    } else if has_repost_of {
        if has_content {
            Ok(PostKind::Quote)
        } else {
            Ok(PostKind::Repost)
        }
    } else if !has_content {
        Err("content is null"@)
    } else if has_reply_to {
        Ok(PostKind::Reply)
    } else {
        Ok(PostKind::Normal)
    }
}

/// Classifies a request to `/post`.
pub fn classify_post_request(has_repost_of: bool, has_reply_to: bool, has_content: bool) -> (r:
    Result<PostKind, String>)
    ensures
        match (r, post_request_kind(has_repost_of, has_reply_to, has_content)) {
            (Ok(k), Ok(k2)) => k == k2,
            (Err(m), Err(m2)) => m@ == m2,
            _ => false,
        },
{
    match (has_repost_of, has_reply_to) {
        (false, false) => if has_content {
            Ok(PostKind::Normal)
        } else {
            Err("content is null".to_owned())
        },
        (true, false) => if has_content {
            Ok(PostKind::Quote)
        } else {
            Ok(PostKind::Repost)
        },
        (false, true) => if has_content {
            Ok(PostKind::Reply)
        } else {
            Err("content is null".to_owned())
        },
        (true, true) => Err("repost_of_id and reply_to_id cannot be set at the same time".to_owned()),
    }
}

/// Why a post could not be deleted.
#[derive(Debug, Clone, Copy, PartialEq, Eq, Structural)]
pub enum PostDeleteError {
    PostNotFound,
    Unauthorized,
}

/// A post can only be deleted when it is found (`poster` is its poster, or
/// `None` when no such post is stored); then only its poster may delete it,
/// and a deletion made on no user's behalf (an incoming remote delete) is
/// allowed.
pub open spec fn delete_outcome(actor: Option<u128>, poster: Option<u128>) -> Result<(), PostDeleteError> {
    match poster {
        None => Err(PostDeleteError::PostNotFound),
        Some(p) => match actor {
            Some(a) => if a == p {
                Ok(())
            } else {
                Err(PostDeleteError::Unauthorized)
            },
            None => Ok(()),
        },
    }
}

/// Decides a deletion from the looked-up post's poster and who asks.
pub fn check_delete(actor: Option<u128>, poster: Option<u128>) -> (r: Result<(), PostDeleteError>)
    ensures
        r == delete_outcome(actor, poster),
{
    let p = match poster {
        Some(p) => p,
        None => return Err(PostDeleteError::PostNotFound),
    };
    match actor {
        Some(a) => if a != p {
            Err(PostDeleteError::Unauthorized)
        } else {
            Ok(())
        },
        None => Ok(()),
    }
}

/// Whether a favorite, bookmark or reaction change is announced to other
/// servers: only a change that happened, that is not a bookmark (bookmarks
/// are private), and that a local user made.
pub open spec fn announce_interaction(changed: bool, as_bookmark: bool, actor_is_local: bool) -> bool {
    changed && !as_bookmark && actor_is_local
}

/// Decides whether an interaction change is sent to other servers.
pub fn should_announce_interaction(changed: bool, as_bookmark: bool, actor_is_local: bool) -> (r:
    bool)
    ensures
        r == announce_interaction(changed, as_bookmark, actor_is_local),
{
    if !changed {
        return false;
    }
    if as_bookmark {
        return false;
    }
    actor_is_local
}

/// The resolved users, in the order they are first mentioned, each once.
pub open spec fn first_mentions(s: Seq<Option<u128>>) -> Seq<u128>
    decreases s.len(),
{
    if s.len() == 0 {
        Seq::empty()
    } else {
        let r = first_mentions(s.drop_last());
        match s.last() {
            Some(u) => if r.contains(u) {
                r
            } else {
                r.push(u)
            },
            None => r,
        }
    }
}

/// The users a post mentions: each resolved user once, in the order first
/// mentioned; mentions that could not be resolved are skipped.
pub fn unique_mentions(resolved: &Vec<Option<u128>>) -> (r: Vec<u128>)
    ensures
        r@ == first_mentions(resolved@),
        r@.no_duplicates(),
        forall|u: u128| r@.contains(u) <==> resolved@.contains(Some(u)),
{
    let mut out: Vec<u128> = Vec::new();
    let mut i: usize = 0;
    while i < resolved.len()
        invariant
            i <= resolved@.len(),
            out@ == first_mentions(resolved@.subrange(0, i as int)),
            out@.no_duplicates(),
            forall|u: u128| out@.contains(u) <==> resolved@.subrange(0, i as int).contains(Some(u)),
        decreases resolved.len() - i,
    {
        let ghost pre = resolved@.subrange(0, i as int);
        let ghost post = resolved@.subrange(0, i + 1);
        assert(post =~= pre.push(resolved@[i as int]));
        assert(post.drop_last() =~= pre);
        match resolved[i] {
            Some(u) => {
                let mut found = false;
                let mut k: usize = 0;
                while k < out.len()
                    invariant
                        k <= out@.len(),
                        found == (exists|j: int| 0 <= j < k && out@[j] == u),
                    decreases out.len() - k,
                {
                    if out[k] == u {
                        found = true;
                    }
                    k = k + 1;
                }
                let ghost before = out@;
                assert(found == before.contains(u));
                if !found {
                    out.push(u);
                    assert forall|a: int, b: int|
                        0 <= a < b < out@.len() implies out@[a] != out@[b] by {
                        if b == out@.len() - 1 {
                            assert(before[a] == out@[a]);
                        }
                    }
                }
                assert forall|v: u128| out@.contains(v) <==> post.contains(Some(v)) by {
                    if v == u {
                        assert(post[i as int] == Some(v));
                        if found {
                            let j = choose|j: int| 0 <= j < out@.len() && out@[j] == u;
                            assert(out@.contains(u));
                        } else {
                            assert(out@[out@.len() - 1] == u);
                        }
                    } else {
                        assert(out@.contains(v) <==> before.contains(v)) by {
                            if out@.contains(v) && !found {
                                let j = choose|j: int| 0 <= j < out@.len() && out@[j] == v;
                                assert(j < before.len());
                                assert(before[j] == v);
                            }
                            if before.contains(v) && !found {
                                let j = choose|j: int| 0 <= j < before.len() && before[j] == v;
                                assert(out@[j] == v);
                            }
                        }
                        assert(post.contains(Some(v)) <==> pre.contains(Some(v))) by {
                            if post.contains(Some(v)) {
                                let j = choose|j: int| 0 <= j < post.len() && post[j] == Some(v);
                                assert(j < pre.len());
                                assert(pre[j] == Some(v));
                            }
                            if pre.contains(Some(v)) {
                                let j = choose|j: int| 0 <= j < pre.len() && pre[j] == Some(v);
                                assert(post[j] == Some(v));
                            }
                        }
                    }
                }
            },
            None => {
                assert forall|v: u128| out@.contains(v) <==> post.contains(Some(v)) by {
                    if post.contains(Some(v)) {
                        let j = choose|j: int| 0 <= j < post.len() && post[j] == Some(v);
                        assert(j < pre.len());
                        assert(pre[j] == Some(v));
                    }
                    if pre.contains(Some(v)) {
                        let j = choose|j: int| 0 <= j < pre.len() && pre[j] == Some(v);
                        assert(post[j] == Some(v));
                    }
                }
            },
        }
        i = i + 1;
    }
    assert(resolved@.subrange(0, resolved@.len() as int) =~= resolved@);
    out
}

/// The hashtags of a post: those found in its content and those that came
/// with it, each once.
pub fn collect_hashtags(from_content: &Vec<String>, from_hint: &Vec<String>) -> (r: Vec<String>)
    ensures
        views(r@).no_duplicates(),
        forall|t: Seq<char>|
            views(r@).contains(t) <==> (views(from_content@).contains(t) || views(
                from_hint@,
            ).contains(t)),
{
    let mut out: Vec<String> = Vec::new();
    assert(views(out@) =~= Seq::<Seq<char>>::empty());
    assert forall|t: Seq<char>| !views(out@).contains(t) by {}
    let ghost o0 = views(out@);
    add_unique(&mut out, from_content);
    let ghost o1 = views(out@);
    add_unique(&mut out, from_hint);
    assert forall|t: Seq<char>|
        views(out@).contains(t) <==> (views(from_content@).contains(t) || views(
            from_hint@,
        ).contains(t)) by {
        assert(!o0.contains(t));
        assert(o1.contains(t) <==> (o0.contains(t) || views(from_content@).contains(t)));
        assert(views(out@).contains(t) <==> (o1.contains(t) || views(from_hint@).contains(t)));
    }
    out
}

/// Adds the strings of `more` that `out` does not hold yet.
fn add_unique(out: &mut Vec<String>, more: &Vec<String>)
    requires
        views(old(out)@).no_duplicates(),
    ensures
        views(final(out)@).no_duplicates(),
        forall|t: Seq<char>|
            #[trigger] views(final(out)@).contains(t) <==> (views(old(out)@).contains(t) || views(
                more@,
            ).contains(t)),
{
    let ghost start = views(out@);
    let mut i: usize = 0;
    while i < more.len()
        invariant
            i <= more@.len(),
            views(out@).no_duplicates(),
            forall|t: Seq<char>|
                views(out@).contains(t) <==> (start.contains(t) || views(more@).subrange(
                    0,
                    i as int,
                ).contains(t)),
        decreases more.len() - i,
    {
        let ghost before = views(out@);
        let ghost pre = views(more@).subrange(0, i as int);
        let ghost post = views(more@).subrange(0, i + 1);
        assert(post =~= pre.push(more@[i as int]@));
        let present = contains_string(out, more[i].as_str());
        let ghost x = more@[i as int]@;
        assert forall|t: Seq<char>| post.contains(t) <==> (pre.contains(t) || t == x) by {
            if post.contains(t) && t != x {
                let j = choose|j: int| 0 <= j < post.len() && post[j] == t;
                assert(pre[j] == t);
            }
            if pre.contains(t) {
                let j = choose|j: int| 0 <= j < pre.len() && pre[j] == t;
                assert(post[j] == t);
            }
            if t == x {
                assert(post[i as int] == t);
            }
        }
        if !present {
            out.push(more[i].clone());
            assert(views(out@) =~= before.push(x));
            assert forall|t: Seq<char>| views(out@).contains(t) <==> (before.contains(t) || t == x) by {
                if views(out@).contains(t) && t != x {
                    let j = choose|j: int| 0 <= j < views(out@).len() && views(out@)[j] == t;
                    assert(before[j] == t);
                }
                if before.contains(t) {
                    let j = choose|j: int| 0 <= j < before.len() && before[j] == t;
                    assert(views(out@)[j] == t);
                }
                if t == x {
                    assert(views(out@)[views(out@).len() - 1] == t);
                }
            }
        } else {
            assert forall|t: Seq<char>| views(out@).contains(t) <==> (before.contains(t) || t == x) by {
            }
        }
        assert forall|t: Seq<char>| views(out@).contains(t) <==> (start.contains(t) || post.contains(t)) by {
            assert(before.contains(t) <==> (start.contains(t) || pre.contains(t)));
            assert(views(out@).contains(t) <==> (before.contains(t) || t == x));
            assert(post.contains(t) <==> (pre.contains(t) || t == x));
        }
        i = i + 1;
    }
    assert(views(more@).subrange(0, i as int) =~= views(more@));
    assert forall|t: Seq<char>|
        #[trigger] views(out@).contains(t) <==> (start.contains(t) || views(more@).contains(t)) by {
        assert(views(out@).contains(t) <==> (start.contains(t) || views(more@).subrange(
            0,
            i as int,
        ).contains(t)));
    }
}

/// The first step of creating a post: a post that comes with a URI
/// (a remote post) is refused as already existing when a post with that URI
/// is stored; `stored` is whether one is.
pub fn check_not_stored(has_uri: bool, stored: bool) -> (r: Result<(), PostCreateError>)
    ensures
        (has_uri && stored) <==> r == Err::<(), PostCreateError>(PostCreateError::AlreadyExists),
        !(has_uri && stored) <==> r is Ok,
{
    if has_uri && stored {
        Err(PostCreateError::AlreadyExists)
    } else {
        Ok(())
    }
}

/// A failed lookup of the poster, as a failure of the creation: a poster
/// that cannot be found (or fetched) is `PosterNotFound`; a general failure
/// is carried over.
pub fn poster_lookup_error(e: ServiceError<UserFindError>) -> (r: ServiceError<PostCreateError>)
    ensures
        match e {
            ServiceError::SpecificError(_) => r == ServiceError::<PostCreateError>::SpecificError(
                PostCreateError::PosterNotFound,
            ),
            ServiceError::MiscError(m) => r == ServiceError::<PostCreateError>::MiscError(m),
        },
{
    match e {
        ServiceError::SpecificError(_) => ServiceError::SpecificError(PostCreateError::PosterNotFound),
        ServiceError::MiscError(m) => ServiceError::MiscError(m),
    }
}

/// The last step of creating a post: a post received from another server
/// (it has a URI) is not delivered; a local post with content is delivered
/// as a `Create` of its note; a local repost is not delivered.
pub fn delivers_created_post(has_uri: bool, has_content: bool) -> (r: bool)
    ensures
        r == (!has_uri && has_content),
{
    !has_uri && has_content
}

/// A post is deleted only when it is found, and then only by its poster or
/// on no user's behalf; a missing post is reported before a wrong actor.
pub proof fn lemma_delete_rules(actor: Option<u128>, poster: Option<u128>)
    ensures
        delete_outcome(actor, poster) is Ok <==> (poster is Some && (actor is None || actor == poster)),
        poster is None ==> delete_outcome(actor, poster) == Err::<(), PostDeleteError>(
            PostDeleteError::PostNotFound,
        ),
{
}

} // verus!
