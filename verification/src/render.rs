//! Rendering local posts and users as ActivityPub objects.
use crate::apub::{
    CreatableObject, CreateActivity, HasId, IdOrObject, Note, Person, PublicKey, PublicKeyEnum,
};
use crate::delivery::TargetedUser;
use crate::ext::{parse_uuid, uuid_parsed, uuid_simple_string, uuid_simple_text};
use crate::ids::{attribute_suffix, object_uri, opt_view, user_uri, HasRemoteUri, IDGetterService, UserAttribute};
use crate::models::{PostPrivacy, User, PUBLIC};
use crate::privacy::{addressing, lemma_addressing_roundtrip};
use crate::services::{note_request_matches, with_blind, PostCreateRequest};
use crate::text::{concat, has_suffix, to_owned_string, views};
use crate::user_spec::{SpecifierView, UserSpecifier};
use vstd::prelude::*;

verus! {

/// A post that can be rendered as a note.
pub trait ApubRenderablePost: HasRemoteUri {
    type Poster: HasRemoteUri;

    spec fn spec_content(&self) -> Option<Seq<char>>;

    spec fn spec_poster(&self) -> Self::Poster;

    spec fn spec_privacy(&self) -> PostPrivacy;

    spec fn spec_created_at(&self) -> i64;

    fn content(&self) -> (r: Option<String>)
        ensures
            opt_view(r) == self.spec_content(),
    ;

    fn poster(&self) -> (r: Self::Poster)
        ensures
            r == self.spec_poster(),
    ;

    fn privacy(&self) -> (r: PostPrivacy)
        ensures
            r == self.spec_privacy(),
    ;

    fn created_at(&self) -> (r: i64)
        ensures
            r == self.spec_created_at(),
    ;
}

/// Errors of rendering. Rendering never fails: no function returns one.
#[derive(Debug)]
pub enum ApubRendererServiceError {
    Unrenderable,
}

/// A rendered note and who it must be delivered to.
#[derive(Debug)]
pub struct RenderedNote {
    pub note: Note,
    pub targeted_users: Vec<TargetedUser>,
}

/// A rendered `Create` of a note and who it must be delivered to.
#[derive(Debug)]
pub struct RenderedNoteCreate {
    pub note_create: CreateActivity,
    pub targeted_users: Vec<TargetedUser>,
}

/// The value of a delivery target.
pub enum TargetView {
    FollowerOf(SpecifierView),
    Mentioned(SpecifierView),
}

/// The values of delivery targets.
pub open spec fn target_views(v: Seq<TargetedUser>) -> Seq<TargetView> {
    v.map_values(
        |t: TargetedUser|
            match t {
                TargetedUser::FollowerOf(u) => TargetView::FollowerOf(u@),
                TargetedUser::Mentioned(u) => TargetView::Mentioned(u@),
            },
    )
}

/// Who a post by the user with id `poster` is delivered to: the poster's
/// followers, unless the post is private.
pub open spec fn post_targets(privacy: PostPrivacy, poster: u128) -> Seq<TargetView> {
    match privacy {
        PostPrivacy::Private => Seq::empty(),
        _ => seq![TargetView::FollowerOf(SpecifierView::ID(poster))],
    }
}

/// Every post that is not private (public, unlisted or followers-only) is
/// delivered to its poster's followers and to no one else; a private post
/// is delivered to no one.
pub proof fn lemma_delivery_targets(privacy: PostPrivacy, poster: u128)
    ensures
        privacy != PostPrivacy::Private ==> post_targets(privacy, poster).len() == 1 && post_targets(
            privacy,
            poster,
        )[0] == TargetView::FollowerOf(SpecifierView::ID(poster)),
        privacy == PostPrivacy::Private ==> post_targets(privacy, poster).len() == 0,
{
}

/// The followers collection of a local user.
pub open spec fn followers_collection(base: Seq<char>, local_id: Seq<char>) -> Seq<char> {
    base + "/user/"@ + local_id + "/followers"@
}

/// Renders posts and users.
#[derive(Debug, Clone)]
pub struct ApubRendererService {
    pub id_getter: IDGetterService,
}

impl ApubRendererService {
    pub fn new(id_getter: IDGetterService) -> (r: Self)
        ensures
            r.id_getter == id_getter,
    {
        Self { id_getter }
    }

    /// The `to` and `cc` addressing of a post, and who it is delivered to.
    /// A private post is addressed to no collection; any other post must be
    /// by a local user.
    pub fn calculate_to_and_cc<P: ApubRenderablePost>(&self, post: &P) -> (r: Result<
        (Vec<String>, Vec<String>, Vec<TargetedUser>),
        ApubRendererServiceError,
    >)
        requires
            post.spec_privacy() != PostPrivacy::Private ==> post.spec_poster().spec_remote_uri() is None
                && uuid_parsed(post.spec_poster().spec_local_id()) is Some,
        ensures
            r matches Ok((to, cc, targets)) && {
                let followers = followers_collection(
                    self.id_getter.base(),
                    post.spec_poster().spec_local_id(),
                );
                &&& (views(to@), views(cc@)) == addressing(post.spec_privacy(), followers)
                &&& target_views(targets@) == post_targets(
                    post.spec_privacy(),
                    uuid_parsed(post.spec_poster().spec_local_id())->0,
                )
                &&& post.spec_privacy() != PostPrivacy::Private ==> (targets@.len() == 1
                    && (targets@[0] matches TargetedUser::FollowerOf(u) && u@ == SpecifierView::ID(
                    uuid_parsed(post.spec_poster().spec_local_id())->0,
                )))
                &&& post.spec_privacy() == PostPrivacy::Private ==> targets@.len() == 0
            },
    {
        let privacy = post.privacy();
        let poster = post.poster();
        if privacy == PostPrivacy::Private {
            let to: Vec<String> = Vec::new();
            let cc: Vec<String> = Vec::new();
            let targets: Vec<TargetedUser> = Vec::new();
            assert(views(to@) =~= Seq::<Seq<char>>::empty());
            assert(views(cc@) =~= Seq::<Seq<char>>::empty());
            assert(target_views(targets@) =~= Seq::<TargetView>::empty());
            return Ok((to, cc, targets));
        }
        let followers_uri = match self.id_getter.get_user_id_attr(&poster, UserAttribute::Followers) {
            Some(u) => u,
            None => vstd::pervasive::unreached(),
        };
        let ghost followers = followers_collection(
            self.id_getter.base(),
            post.spec_poster().spec_local_id(),
        );
        assert(followers_uri@ == followers);
        let local_id = poster.get_local_id();
        let poster_id = match parse_uuid(local_id.as_str()) {
            Some(u) => u,
            None => vstd::pervasive::unreached(),
        };
        let mut to: Vec<String> = Vec::new();
        let mut cc: Vec<String> = Vec::new();
        let mut targets: Vec<TargetedUser> = Vec::new();
        match privacy {
            PostPrivacy::Public => {
                to.push(to_owned_string(PUBLIC));
                cc.push(followers_uri);
                targets.push(TargetedUser::FollowerOf(UserSpecifier::from_id(poster_id)));
            },
            PostPrivacy::Unlisted => {
                cc.push(to_owned_string(PUBLIC));
                cc.push(followers_uri);
                targets.push(TargetedUser::FollowerOf(UserSpecifier::from_id(poster_id)));
            },
            PostPrivacy::Followers => {
                to.push(followers_uri);
                targets.push(TargetedUser::FollowerOf(UserSpecifier::from_id(poster_id)));
            },
            PostPrivacy::Private => {},
        }
        assert(views(to@) =~= addressing(privacy, followers).0);
        assert(views(cc@) =~= addressing(privacy, followers).1);
        assert(target_views(targets@) =~= post_targets(privacy, poster_id));
        Ok((to, cc, targets))
    }

    /// The note for a post by a local user.
    pub fn render_post<P: ApubRenderablePost>(&self, post: &P) -> (r: Result<
        RenderedNote,
        ApubRendererServiceError,
    >)
        requires
            post.spec_privacy() != PostPrivacy::Private ==> post.spec_poster().spec_remote_uri() is None
                && uuid_parsed(post.spec_poster().spec_local_id()) is Some,
            post.spec_content() is Some,
        ensures
            r matches Ok(rendered) && {
                let followers = followers_collection(
                    self.id_getter.base(),
                    post.spec_poster().spec_local_id(),
                );
                let note = rendered.note;
                &&& note.id@ == object_uri(
                    self.id_getter.base(),
                    "/post/"@,
                    post.spec_local_id(),
                    post.spec_remote_uri(),
                )
                &&& note.attributed_to@ == user_uri(
                    self.id_getter.base(),
                    post.spec_poster().spec_local_id(),
                    post.spec_poster().spec_remote_uri(),
                )
                &&& Some(note.content@) == post.spec_content()
                &&& (views(note.to@), views(note.cc@)) == addressing(post.spec_privacy(), followers)
                &&& note.bto is None
                &&& note.bcc is None
                &&& note.published == post.spec_created_at()
                &&& note.in_reply_to is None
                &&& note.tags is None
                &&& target_views(rendered.targeted_users@) == post_targets(
                    post.spec_privacy(),
                    uuid_parsed(post.spec_poster().spec_local_id())->0,
                )
            },
    {
        let post_id = self.id_getter.get_post_id(post);
        let poster = post.poster();
        let poster_id = self.id_getter.get_user_id(&poster);
        let (to, cc, targeted_users) = match self.calculate_to_and_cc(post) {
            Ok(t) => t,
            Err(e) => return Err(e),
        };
        let content = match post.content() {
            Some(c) => c,
            None => vstd::pervasive::unreached(),
        };
        let note = Note {
            id: post_id,
            attributed_to: poster_id,
            content,
            to,
            cc,
            bto: None,
            bcc: None,
            published: post.created_at(),
            in_reply_to: None,
            tags: None,
        };
        Ok(RenderedNote { note, targeted_users })
    }

    /// The `Create` activity for a post by a local user: its id is the note's
    /// id followed by `/activity`, its actor the note's author, and it is
    /// addressed like the note.
    pub fn render_create_post<P: ApubRenderablePost>(&self, post: &P) -> (r: Result<
        RenderedNoteCreate,
        ApubRendererServiceError,
    >)
        requires
            post.spec_privacy() != PostPrivacy::Private ==> post.spec_poster().spec_remote_uri() is None
                && uuid_parsed(post.spec_poster().spec_local_id()) is Some,
            post.spec_content() is Some,
        ensures
            r matches Ok(rendered) && {
                let followers = followers_collection(
                    self.id_getter.base(),
                    post.spec_poster().spec_local_id(),
                );
                let create = rendered.note_create;
                let note_id = object_uri(
                    self.id_getter.base(),
                    "/post/"@,
                    post.spec_local_id(),
                    post.spec_remote_uri(),
                );
                &&& create.id@ == note_id + "/activity"@
                &&& create.actor@ == user_uri(
                    self.id_getter.base(),
                    post.spec_poster().spec_local_id(),
                    post.spec_poster().spec_remote_uri(),
                )
                &&& create.object matches IdOrObject::Object(CreatableObject::Note(note)) && note.id@
                    == note_id && Some(note.content@) == post.spec_content() && note.published
                    == post.spec_created_at()
                &&& (views(create.to@), views(create.cc@)) == addressing(
                    post.spec_privacy(),
                    followers,
                )
                &&& create.bto is None
                &&& create.bcc is None
                &&& target_views(rendered.targeted_users@) == post_targets(
                    post.spec_privacy(),
                    uuid_parsed(post.spec_poster().spec_local_id())->0,
                )
            },
    {
        let rendered = match self.render_post(post) {
            Ok(r) => r,
            Err(e) => return Err(e),
        };
        let note = rendered.note;
        let create_id = concat(note.id.as_str(), "/activity");
        let actor = note.attributed_to.clone();
        let to = crate::services::copy_strings(&note.to);
        let cc = crate::services::copy_strings(&note.cc);
        let create = CreateActivity {
            id: create_id,
            actor,
            object: IdOrObject::Object(CreatableObject::Note(note)),
            to,
            cc,
            bto: None,
            bcc: None,
        };
        Ok(RenderedNoteCreate { note_create: create, targeted_users: rendered.targeted_users })
    }

    /// The person object of a local user that has a public key.
    pub fn render_user(&self, user: &User) -> (r: Result<Person, ApubRendererServiceError>)
        requires
            user.uri is None,
            user.public_key is Some,
        ensures
            r matches Ok(p) && {
                let base = self.id_getter.base();
                let local = uuid_simple_text(user.id);
                let id = user_uri(base, local, None);
                &&& p.id@ == id
                &&& p.name@ == user.nickname@
                &&& p.preferred_username@ == user.username@
                &&& p.inbox@ == id + attribute_suffix(UserAttribute::Inbox)
                &&& p.outbox@ == id + attribute_suffix(UserAttribute::Outbox)
                &&& p.shared_inbox is None
                &&& opt_view(p.following) == Some(id + attribute_suffix(UserAttribute::Following))
                &&& opt_view(p.followers) == Some(id + attribute_suffix(UserAttribute::Followers))
                &&& opt_view(p.liked) == Some(id + attribute_suffix(UserAttribute::Liked))
                &&& p.public_key matches PublicKeyEnum::Key(k) && k.id@ == id + attribute_suffix(
                    UserAttribute::PublicKey,
                ) && k.owner@ == id && Some(k.public_key_pem@) == opt_view(user.public_key)
                &&& opt_view(p.summary) == Some(user.bio@)
            },
    {
        let user_id = self.id_getter.get_user_id(user);
        let inbox = match self.id_getter.get_user_id_attr(user, UserAttribute::Inbox) {
            Some(u) => u,
            None => vstd::pervasive::unreached(),
        };
        let outbox = match self.id_getter.get_user_id_attr(user, UserAttribute::Outbox) {
            Some(u) => u,
            None => vstd::pervasive::unreached(),
        };
        let following = self.id_getter.get_user_id_attr(user, UserAttribute::Following);
        let followers = self.id_getter.get_user_id_attr(user, UserAttribute::Followers);
        let liked = self.id_getter.get_user_id_attr(user, UserAttribute::Liked);
        let key_id = match self.id_getter.get_user_id_attr(user, UserAttribute::PublicKey) {
            Some(u) => u,
            None => vstd::pervasive::unreached(),
        };
        let pem = match &user.public_key {
            Some(k) => k.clone(),
            None => vstd::pervasive::unreached(),
        };
        let public_key = PublicKey { id: key_id, owner: user_id.clone(), public_key_pem: pem };
        Ok(
            Person {
                id: user_id,
                name: user.nickname.clone(),
                inbox,
                outbox,
                shared_inbox: None,
                followers,
                following,
                liked,
                preferred_username: user.username.clone(),
                public_key: PublicKeyEnum::Key(public_key),
                summary: Some(user.bio.clone()),
            },
        )
    }
}

/// The poster of a local post.
#[derive(Debug, Clone, Copy)]
pub struct LocalPoster {
    pub id: u128,
}

impl HasRemoteUri for LocalPoster {
    open spec fn spec_local_id(&self) -> Seq<char> {
        uuid_simple_text(self.id)
    }

    open spec fn spec_remote_uri(&self) -> Option<Seq<char>> {
        None
    }

    fn get_local_id(&self) -> (r: String) {
        uuid_simple_string(self.id)
    }

    fn get_remote_uri(&self) -> (r: Option<String>) {
        None
    }
}

/// A post just created by a local user, as it is rendered for delivery.
/// `created_at` is in milliseconds since the Unix epoch.
#[derive(Debug)]
pub struct LocalPost {
    pub id: u128,
    pub content: Option<String>,
    pub poster: LocalPoster,
    pub privacy: PostPrivacy,
    pub created_at: i64,
    pub repost_of_uri: Option<String>,
    pub reply_to_uri: Option<String>,
}

impl HasRemoteUri for LocalPost {
    open spec fn spec_local_id(&self) -> Seq<char> {
        uuid_simple_text(self.id)
    }

    open spec fn spec_remote_uri(&self) -> Option<Seq<char>> {
        None
    }

    fn get_local_id(&self) -> (r: String) {
        uuid_simple_string(self.id)
    }

    fn get_remote_uri(&self) -> (r: Option<String>) {
        None
    }
}

impl ApubRenderablePost for LocalPost {
    type Poster = LocalPoster;

    open spec fn spec_content(&self) -> Option<Seq<char>> {
        opt_view(self.content)
    }

    open spec fn spec_poster(&self) -> LocalPoster {
        self.poster
    }

    open spec fn spec_privacy(&self) -> PostPrivacy {
        self.privacy
    }

    open spec fn spec_created_at(&self) -> i64 {
        self.created_at
    }

    fn content(&self) -> (r: Option<String>) {
        crate::models::clone_opt_string(&self.content)
    }

    fn poster(&self) -> (r: LocalPoster) {
        self.poster
    }

    fn privacy(&self) -> (r: PostPrivacy) {
        self.privacy
    }

    fn created_at(&self) -> (r: i64) {
        self.created_at
    }
}

impl ApubRendererService {
    /// The `Create` activity for a post just made by a local user; a repost
    /// (no content) is not rendered as a note, and gives `None`.
    pub fn render_local_post(&self, post: &LocalPost) -> (r: Option<RenderedNoteCreate>)
        ensures
            post.content is None <==> r is None,
            r matches Some(rendered) ==> {
                let base = self.id_getter.base();
                let followers = followers_collection(base, uuid_simple_text(post.poster.id));
                let create = rendered.note_create;
                let note_id = object_uri(base, "/post/"@, uuid_simple_text(post.id), None);
                &&& create.id@ == note_id + "/activity"@
                &&& create.actor@ == user_uri(base, uuid_simple_text(post.poster.id), None)
                &&& create.object matches IdOrObject::Object(CreatableObject::Note(note)) && note.id@
                    == note_id && Some(note.content@) == opt_view(post.content)
                    && note.published == post.created_at
                &&& (views(create.to@), views(create.cc@)) == addressing(post.privacy, followers)
                &&& target_views(rendered.targeted_users@) == post_targets(
                    post.privacy,
                    post.poster.id,
                )
                &&& post.privacy != PostPrivacy::Private ==> (rendered.targeted_users@.len() == 1
                    && (rendered.targeted_users@[0] matches TargetedUser::FollowerOf(u) && u@
                    == SpecifierView::ID(post.poster.id)))
                &&& post.privacy == PostPrivacy::Private ==> rendered.targeted_users@.len() == 0
            },
    {
        if post.content.is_none() {
            return None;
        }
        let _ = uuid_simple_string(post.poster.id);
        match self.render_create_post(post) {
            Ok(r) => {
                proof {
                    lemma_targets_shape(r.targeted_users@, post.privacy, post.poster.id);
                }
                Some(r)
            },
            Err(_) => None,
        }
    }
}

/// Targets whose values are a post's targets are the poster's followers, or none.
proof fn lemma_targets_shape(v: Seq<TargetedUser>, privacy: PostPrivacy, poster: u128)
    requires
        target_views(v) == post_targets(privacy, poster),
    ensures
        privacy != PostPrivacy::Private ==> (v.len() == 1 && (v[0] matches TargetedUser::FollowerOf(u)
            && u@ == SpecifierView::ID(poster))),
        privacy == PostPrivacy::Private ==> v.len() == 0,
{
    assert(target_views(v).len() == v.len());
    if privacy != PostPrivacy::Private {
        assert(target_views(v)[0] == TargetView::FollowerOf(SpecifierView::ID(poster)));
    }
}

/// A note that this server renders for a post, read back by a server that
/// receives it, asks for a normal post with the same privacy, content, id,
/// author and time.
pub proof fn lemma_rendered_note_read_back(
    note: Note,
    privacy: PostPrivacy,
    base: Seq<char>,
    local_id: Seq<char>,
    req: PostCreateRequest,
)
    requires
        (views(note.to@), views(note.cc@)) == addressing(privacy, followers_collection(base, local_id)),
        note.bto is None,
        note.bcc is None,
        note.in_reply_to is None,
        note_request_matches(&note, &req),
    ensures
        req.spec_privacy() == privacy,
        req matches PostCreateRequest::Normal(n) && n.content@ == note.content@,
        opt_view(req.spec_uri()) == Some(note.id@),
        req.spec_poster()@ == SpecifierView::URL(note.attributed_to@),
        req.spec_created_at() == Some(note.published),
{
    let followers = followers_collection(base, local_id);
    reveal_strlit("/followers");
    assert(has_suffix(followers, "/followers"@)) by {
        assert(followers.subrange(followers.len() - 10, followers.len() as int) =~= "/followers"@);
    }
    lemma_addressing_roundtrip(privacy, followers);
    assert(with_blind(note.to@, note.bto) == views(note.to@));
    assert(with_blind(note.cc@, note.bcc) == views(note.cc@));
}

} // verus!
