//! What a user's inbox makes of the activities it receives.
use crate::api::ErrorResponse;
use crate::apub::{AcceptActivity, AnnounceActivity, FollowActivity, HasId, IdOrObject, Note};
use crate::privacy::{announce_privacy, classify_announce_privacy};
use crate::services::{
    copy_strings, PostCreateRequest, PostCreateRequestRepost, PostHint, PostSpecifier,
};
use crate::text::{str_eq, views};
use crate::user_spec::{SpecifierView, UserSpecifier};
use vstd::prelude::*;

verus! {

/// A follow request, named by its local URI or by the two users.
#[derive(Debug, Clone)]
pub enum FollowRequestSpecifier {
    LocalURI(String),
    ActorPair(UserSpecifier, UserSpecifier),
}

/// A follow request received from another server: its id, the follower and
/// the followee.
#[derive(Debug, Clone)]
pub enum IncomingFollowRequest {
    ActorPair(String, UserSpecifier, UserSpecifier),
}

/// A 400 answer for a malformed activity.
fn bad_activity(message: &str) -> (r: ErrorResponse)
    ensures
        r.status == 400,
        r.message@ == message@,
{
    ErrorResponse::new_status(400, message)
}

/// An `Accept` of a follow request names that request by its two users:
/// the follow's actor follows the follow's object. The accepting actor must
/// be the followee.
pub fn accepted_follow_request(accept: &AcceptActivity) -> (r: Result<
    FollowRequestSpecifier,
    ErrorResponse,
>)
    requires
        accept.object is Object,
    ensures
        match accept.object {
            IdOrObject::Object(follow) => if accept.actor@ != follow.object.spec_id() {
                r matches Err(e) && e.status == 400
            } else {
                r matches Ok(FollowRequestSpecifier::ActorPair(a, b)) && a@ == SpecifierView::URL(
                    follow.actor@,
                ) && b@ == SpecifierView::URL(follow.object.spec_id())
            },
            IdOrObject::Id(_) => false,
        },
{
    match &accept.object {
        IdOrObject::Object(follow) => {
            let object_object_id = follow.object.get_id();
            if !str_eq(accept.actor.as_str(), object_object_id) {
                return Err(bad_activity("actor and object id mismatch"));
            }
            Ok(
                FollowRequestSpecifier::ActorPair(
                    UserSpecifier::from_url(follow.actor.clone()),
                    UserSpecifier::from_url(object_object_id.to_owned()),
                ),
            )
        },
        IdOrObject::Id(_) => vstd::pervasive::unreached(),
    }
}

/// A `Follow` asks that its actor follow its object.
pub fn incoming_follow_request(follow: &FollowActivity) -> (r: IncomingFollowRequest)
    ensures
        r matches IncomingFollowRequest::ActorPair(id, a, b) && id@ == follow.id@ && a@
            == SpecifierView::URL(follow.actor@) && b@ == SpecifierView::URL(
            follow.object.spec_id(),
        ),
{
    IncomingFollowRequest::ActorPair(
        follow.id.clone(),
        UserSpecifier::from_url(follow.actor.clone()),
        UserSpecifier::from_url(follow.object.get_id().to_owned()),
    )
}

/// A created note must be attributed to the actor that created it.
pub fn check_note_author(actor: &str, note: &Note) -> (r: Result<(), ErrorResponse>)
    ensures
        note.attributed_to@ == actor@ <==> r is Ok,
        r matches Err(e) ==> e.status == 400,
{
    if !str_eq(note.attributed_to.as_str(), actor) {
        return Err(bad_activity("object's attribute_to does not match actor"));
    }
    Ok(())
}

/// The `to` of an announce, with its `bto`.
pub open spec fn announce_to(a: &AnnounceActivity) -> Seq<Seq<char>> {
    match a.bto {
        Some(b) => views(a.to@ + b@),
        None => views(a.to@),
    }
}

/// The `cc` of an announce, with its `bcc`.
pub open spec fn announce_cc(a: &AnnounceActivity) -> Seq<Seq<char>> {
    match a.bcc {
        Some(b) => views(a.cc@ + b@),
        None => views(a.cc@),
    }
}

/// The repost that a received `Announce` asks for: by the announcing actor,
/// under the announce's id, of the announced object. Only public and
/// unlisted announces are accepted.
pub fn repost_from_announce(announce: &AnnounceActivity) -> (r: Result<
    PostCreateRequest,
    ErrorResponse,
>)
    ensures
        match announce_privacy(announce_to(announce), announce_cc(announce)) {
            None => r matches Err(e) && e.status == 400,
            Some(p) => r matches Ok(PostCreateRequest::Repost(req)) && {
                &&& req.privacy == p
                &&& req.poster@ == SpecifierView::URL(announce.actor@)
                &&& crate::ids::opt_view(req.uri) == Some(announce.id@)
                &&& req.created_at == Some(announce.published)
                &&& req.repost_of matches PostSpecifier::URI(u) && u@ == announce.object.spec_id()
            },
        },
{
    let mut to = copy_strings(&announce.to);
    let mut cc = copy_strings(&announce.cc);
    match &announce.bto {
        Some(b) => {
            let mut more = copy_strings(b);
            let ghost t0 = to@;
            let ghost m0 = more@;
            to.append(&mut more);
            assert(views(to@) =~= views(announce.to@ + b@)) by {
                assert(views(t0 + m0) =~= views(t0) + views(m0));
                assert(views(announce.to@ + b@) =~= views(announce.to@) + views(b@));
            }
        },
        None => {},
    }
    match &announce.bcc {
        Some(b) => {
            let mut more = copy_strings(b);
            let ghost c0 = cc@;
            let ghost m0 = more@;
            cc.append(&mut more);
            assert(views(cc@) =~= views(announce.cc@ + b@)) by {
                assert(views(c0 + m0) =~= views(c0) + views(m0));
                assert(views(announce.cc@ + b@) =~= views(announce.cc@) + views(b@));
            }
        },
        None => {},
    }
    let privacy = match classify_announce_privacy(&to, &cc) {
        Some(p) => p,
        None => return Err(bad_activity("invalid activity")),
    };
    Ok(
        PostCreateRequest::Repost(
            PostCreateRequestRepost {
                poster: UserSpecifier::from_url(announce.actor.clone()),
                uri: Some(announce.id.clone()),
                created_at: Some(announce.published),
                privacy,
                repost_of: PostSpecifier::from_uri(announce.object.get_id().to_owned()),
                hints: PostHint { hashtags: Vec::new(), mentions: Vec::new() },
            },
        ),
    )
}

} // verus!
