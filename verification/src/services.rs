//! Service-level errors and requests.
use crate::apub::{HasId, Note, TagEnum};
use crate::models::PostPrivacy;
use crate::privacy::{classify_privacy, note_privacy};
use crate::text::views;
use crate::user_spec::{SpecifierView, UserSpecifier};
use vstd::prelude::*;

verus! {

/// A failure that is not specific to the operation: how it is reported to
/// the client (message and HTTP status).
#[derive(Debug, Clone)]
pub struct MiscFailure {
    pub message: String,
    pub status: i32,
}

/// Errors that are reported to clients with a message and an HTTP status.
pub trait MiscError {
    spec fn spec_message(&self) -> Seq<char>;

    spec fn spec_status(&self) -> i32;

    fn message(&self) -> (r: String)
        ensures
            r@ == self.spec_message(),
    ;

    fn status_code(&self) -> (r: i32)
        ensures
            r == self.spec_status(),
    ;
}

impl MiscError for MiscFailure {
    open spec fn spec_message(&self) -> Seq<char> {
        self.message@
    }

    open spec fn spec_status(&self) -> i32 {
        self.status
    }

    fn message(&self) -> (r: String) {
        self.message.clone()
    }

    fn status_code(&self) -> (r: i32) {
        self.status
    }
}

/// How a failure is reported: its message and status.
pub fn misc_failure_of<M: MiscError>(e: &M) -> (r: MiscFailure)
    ensures
        r.message@ == e.spec_message(),
        r.status == e.spec_status(),
{
    MiscFailure { message: e.message(), status: e.status_code() }
}

/// An operation's failure: one it names, or a general one.
#[derive(Debug)]
pub enum ServiceError<T> {
    SpecificError(T),
    MiscError(MiscFailure),
}

impl<T> ServiceError<T> {
    pub fn from_se(e: T) -> (r: Self)
        ensures
            r == ServiceError::<T>::SpecificError(e),
    {
        ServiceError::SpecificError(e)
    }

    /// Carries a general failure over to another operation's error type.
    /// A specific error cannot be carried over (the caller must have handled it).
    pub fn convert<S>(self) -> (r: ServiceError<S>)
        requires
            self is MiscError,
        ensures
            r == ServiceError::<S>::MiscError(self->MiscError_0),
    {
        match self {
            ServiceError::MiscError(e) => ServiceError::MiscError(e),
            ServiceError::SpecificError(_) => vstd::pervasive::unreached(),
        }
    }

    pub fn from_misc(e: MiscFailure) -> (r: Self)
        ensures
            r == ServiceError::<T>::MiscError(e),
    {
        ServiceError::MiscError(e)
    }
}

/// Finding a local user failed.
#[derive(Debug, Clone, Copy, PartialEq, Eq, Structural)]
pub enum LocalUserFindError {
    UserNotFound,
    NotLocalUser,
}

/// Finding any user failed.
#[derive(Debug, Clone, Copy, PartialEq, Eq, Structural)]
pub enum UserFindError {
    UserNotFound,
    RemoteError,
}

/// A local-user lookup's failure, as a failure of a lookup of any user.
/// The lookup is only asked for users that may be local, so it never says
/// that a user is not local.
pub fn map_to_local_error(e: ServiceError<LocalUserFindError>) -> (r: ServiceError<UserFindError>)
    requires
        e != ServiceError::<LocalUserFindError>::SpecificError(LocalUserFindError::NotLocalUser),
    ensures
        match e {
            ServiceError::SpecificError(_) => r == ServiceError::<UserFindError>::SpecificError(
                UserFindError::UserNotFound,
            ),
            ServiceError::MiscError(m) => r == ServiceError::<UserFindError>::MiscError(m),
        },
{
    match e {
        ServiceError::SpecificError(LocalUserFindError::UserNotFound) => ServiceError::from_se(
            UserFindError::UserNotFound,
        ),
        ServiceError::SpecificError(LocalUserFindError::NotLocalUser) => {
            assert(false);
            ServiceError::from_se(UserFindError::UserNotFound)
        },
        ServiceError::MiscError(m) => ServiceError::MiscError(m),
    }
}

#[derive(Debug, Clone, Copy, PartialEq, Eq, Structural)]
pub enum UserCreateError {
    UsernameConflict,
}

#[derive(Debug, Clone, Copy, PartialEq, Eq, Structural)]
pub enum UserLoginError {
    AuthFailed,
}

#[derive(Debug, Clone, Copy, PartialEq, Eq, Structural)]
pub enum AuthError {
    TokenNotSet,
}

#[derive(Debug, Clone, Copy, PartialEq, Eq, Structural)]
pub enum FollowError {
    FollowerNotFound,
    FolloweeNotFound,
    RequestNotFound,
}

#[derive(Debug, Clone, Copy, PartialEq, Eq, Structural)]
pub enum ApubNoteError {
    IDNotFound,
    AttributedToNotFound,
    ContentNotFound,
    PublishedAtNotFound,
}

#[derive(Debug, Clone, Copy, PartialEq, Eq, Structural)]
pub enum PostToInboxError {
    Failed,
}

#[derive(Debug, Clone, Copy, PartialEq, Eq, Structural)]
pub enum ApubFetchUserError {
    NotFound,
}

#[derive(Debug, Clone, Copy, PartialEq, Eq, Structural)]
pub enum ApubFetchPostError {
    NotFound,
}

#[derive(Debug, Clone, Copy, PartialEq, Eq, Structural)]
pub enum WebfingerError {
    ApiUrlNotFound,
    NotFound,
}

#[derive(Debug, Clone, Copy, PartialEq, Eq, Structural)]
pub enum ApubFollowError {
    RequestNotFound,
}

#[derive(Debug, Clone, Copy, PartialEq, Eq, Structural)]
pub enum SignerError {
    UserNotFound,
    PrivateKeyNotSet,
}

/// A registration request.
#[derive(Debug, Clone)]
pub struct UserCreateRequest {
    pub username: String,
    pub nickname: String,
    pub password: String,
}

/// A login request.
#[derive(Debug, Clone)]
pub struct UserLoginRequest {
    pub username: String,
    pub password: String,
}

/// Where a user receives activities: its own inbox and its server's shared inbox.
#[derive(Debug, Clone)]
pub struct InboxPair {
    pub inbox: Option<String>,
    pub shared_inbox: Option<String>,
}

impl InboxPair {
    pub fn inbox(&self) -> (r: &Option<String>)
        ensures
            *r == self.inbox,
    {
        &self.inbox
    }

    pub fn shared_inbox(&self) -> (r: &Option<String>)
        ensures
            *r == self.shared_inbox,
    {
        &self.shared_inbox
    }
}

/// A post, named by local id or by URI.
#[derive(Debug, Clone)]
pub enum PostSpecifier {
    ID(u128),
    URI(String),
}

impl PostSpecifier {
    pub fn from_id(id: u128) -> (r: Self)
        ensures
            r == PostSpecifier::ID(id),
    {
        PostSpecifier::ID(id)
    }

    pub fn from_uri(uri: String) -> (r: Self)
        ensures
            r matches PostSpecifier::URI(u) && u@ == uri@,
    {
        PostSpecifier::URI(uri)
    }
}

/// Hashtags and mentions that came with a post from elsewhere.
#[derive(Debug, Clone)]
pub struct PostHint {
    pub hashtags: Vec<String>,
    pub mentions: Vec<UserSpecifier>,
}

/// A request for a post with content.
#[derive(Debug)]
pub struct PostCreateRequestNormal {
    pub poster: UserSpecifier,
    pub uri: Option<String>,
    pub created_at: Option<i64>,
    pub content: String,
    pub privacy: PostPrivacy,
    pub hints: PostHint,
}

/// A request for a repost.
#[derive(Debug)]
pub struct PostCreateRequestRepost {
    pub poster: UserSpecifier,
    pub uri: Option<String>,
    pub created_at: Option<i64>,
    pub privacy: PostPrivacy,
    pub repost_of: PostSpecifier,
    pub hints: PostHint,
}

/// A request for a quote.
#[derive(Debug)]
pub struct PostCreateRequestQuote {
    pub poster: UserSpecifier,
    pub uri: Option<String>,
    pub created_at: Option<i64>,
    pub content: String,
    pub privacy: PostPrivacy,
    pub repost_of: PostSpecifier,
    pub hints: PostHint,
}

/// A request for a reply.
#[derive(Debug)]
pub struct PostCreateRequestReply {
    pub poster: UserSpecifier,
    pub uri: Option<String>,
    pub created_at: Option<i64>,
    pub content: String,
    pub privacy: PostPrivacy,
    pub reply_to: PostSpecifier,
    pub hints: PostHint,
}

/// A request to create a post of any kind.
#[derive(Debug)]
pub enum PostCreateRequest {
    Normal(PostCreateRequestNormal),
    Repost(PostCreateRequestRepost),
    Quote(PostCreateRequestQuote),
    Reply(PostCreateRequestReply),
}

impl PostCreateRequest {
    pub open spec fn spec_poster(&self) -> UserSpecifier {
        match self {
            PostCreateRequest::Normal(r) => r.poster,
            PostCreateRequest::Repost(r) => r.poster,
            PostCreateRequest::Quote(r) => r.poster,
            PostCreateRequest::Reply(r) => r.poster,
        }
    }

    pub open spec fn spec_privacy(&self) -> PostPrivacy {
        match self {
            PostCreateRequest::Normal(r) => r.privacy,
            PostCreateRequest::Repost(r) => r.privacy,
            PostCreateRequest::Quote(r) => r.privacy,
            PostCreateRequest::Reply(r) => r.privacy,
        }
    }

    pub open spec fn spec_uri(&self) -> Option<String> {
        match self {
            PostCreateRequest::Normal(r) => r.uri,
            PostCreateRequest::Repost(r) => r.uri,
            PostCreateRequest::Quote(r) => r.uri,
            PostCreateRequest::Reply(r) => r.uri,
        }
    }

    pub open spec fn spec_hint(&self) -> PostHint {
        match self {
            PostCreateRequest::Normal(r) => r.hints,
            PostCreateRequest::Repost(r) => r.hints,
            PostCreateRequest::Quote(r) => r.hints,
            PostCreateRequest::Reply(r) => r.hints,
        }
    }

    pub open spec fn spec_created_at(&self) -> Option<i64> {
        match self {
            PostCreateRequest::Normal(r) => r.created_at,
            PostCreateRequest::Repost(r) => r.created_at,
            PostCreateRequest::Quote(r) => r.created_at,
            PostCreateRequest::Reply(r) => r.created_at,
        }
    }

    pub fn poster(&self) -> (r: &UserSpecifier)
        ensures
            *r == self.spec_poster(),
    {
        match self {
            PostCreateRequest::Normal(r) => &r.poster,
            PostCreateRequest::Repost(r) => &r.poster,
            PostCreateRequest::Quote(r) => &r.poster,
            PostCreateRequest::Reply(r) => &r.poster,
        }
    }

    pub fn privacy(&self) -> (r: PostPrivacy)
        ensures
            r == self.spec_privacy(),
    {
        match self {
            PostCreateRequest::Normal(r) => r.privacy,
            PostCreateRequest::Repost(r) => r.privacy,
            PostCreateRequest::Quote(r) => r.privacy,
            PostCreateRequest::Reply(r) => r.privacy,
        }
    }

    pub fn uri(&self) -> (r: &Option<String>)
        ensures
            *r == self.spec_uri(),
    {
        match self {
            PostCreateRequest::Normal(r) => &r.uri,
            PostCreateRequest::Repost(r) => &r.uri,
            PostCreateRequest::Quote(r) => &r.uri,
            PostCreateRequest::Reply(r) => &r.uri,
        }
    }

    pub fn hint(&self) -> (r: &PostHint)
        ensures
            *r == self.spec_hint(),
    {
        match self {
            PostCreateRequest::Normal(r) => &r.hints,
            PostCreateRequest::Repost(r) => &r.hints,
            PostCreateRequest::Quote(r) => &r.hints,
            PostCreateRequest::Reply(r) => &r.hints,
        }
    }

    pub fn created_at(&self) -> (r: Option<i64>)
        ensures
            r == self.spec_created_at(),
    {
        match self {
            PostCreateRequest::Normal(r) => r.created_at,
            PostCreateRequest::Repost(r) => r.created_at,
            PostCreateRequest::Quote(r) => r.created_at,
            PostCreateRequest::Reply(r) => r.created_at,
        }
    }
}

/// The names of the hashtags among `tags`, in order.
pub open spec fn hashtag_names(tags: Seq<TagEnum>) -> Seq<Seq<char>>
    decreases tags.len(),
{
    if tags.len() == 0 {
        Seq::empty()
    } else {
        let r = hashtag_names(tags.drop_last());
        match tags.last() {
            TagEnum::Hashtag(h) => r.push(h.name@),
            TagEnum::Mention(_) => r,
        }
    }
}

/// The users mentioned among `tags` (named by URL), in order.
pub open spec fn mentioned_users(tags: Seq<TagEnum>) -> Seq<SpecifierView>
    decreases tags.len(),
{
    if tags.len() == 0 {
        Seq::empty()
    } else {
        let r = mentioned_users(tags.drop_last());
        match tags.last() {
            TagEnum::Mention(m) => r.push(SpecifierView::URL(m.href@)),
            TagEnum::Hashtag(_) => r,
        }
    }
}

/// The tags of a note (none when absent).
pub open spec fn note_tags(note: &Note) -> Seq<TagEnum> {
    match note.tags {
        Some(t) => t@,
        None => Seq::empty(),
    }
}

/// The addresses of `main` followed by those of `extra`, if any.
pub open spec fn with_blind(main: Seq<String>, extra: Option<Vec<String>>) -> Seq<Seq<char>> {
    match extra {
        Some(e) => views(main + e@),
        None => views(main),
    }
}

/// The value of the user specifiers.
pub open spec fn specifier_views(v: Seq<UserSpecifier>) -> Seq<SpecifierView> {
    v.map_values(|u: UserSpecifier| u@)
}

/// Copies of the strings of `v`.
pub fn copy_strings(v: &Vec<String>) -> (r: Vec<String>)
    ensures
        views(r@) == views(v@),
{
    let mut out: Vec<String> = Vec::new();
    let mut i: usize = 0;
    while i < v.len()
        invariant
            i <= v@.len(),
            views(out@) == views(v@.subrange(0, i as int)),
        decreases v.len() - i,
    {
        let ghost before = out@;
        let c = v[i].clone();
        assert(c@ == v@[i as int]@);
        out.push(c);
        assert(views(out@) =~= views(before).push(c@));
        assert(views(v@.subrange(0, i + 1)) =~= views(v@.subrange(0, i as int)).push(v@[i as int]@));
        i = i + 1;
    }
    assert(v@.subrange(0, v@.len() as int) =~= v@);
    out
}

/// `main` followed by a copy of `extra`.
fn join_addresses(main: &Vec<String>, extra: &Option<Vec<String>>) -> (r: Vec<String>)
    ensures
        views(r@) == with_blind(main@, *extra),
{
    let mut all = copy_strings(main);
    match extra {
        Some(e) => {
            let mut more = copy_strings(e);
            let ghost before = all@;
            let ghost added = more@;
            all.append(&mut more);
            assert(views(all@) =~= views(main@ + e@)) by {
                assert(views(before + added) =~= views(before) + views(added));
                assert(views(main@ + e@) =~= views(main@) + views(e@));
            }
        },
        None => {},
    }
    all
}

/// The hashtags and mentioned users among `tags`.
fn split_tags(tags: &Vec<TagEnum>) -> (r: (Vec<String>, Vec<UserSpecifier>))
    ensures
        views(r.0@) == hashtag_names(tags@),
        specifier_views(r.1@) == mentioned_users(tags@),
{
    let mut hashtags: Vec<String> = Vec::new();
    let mut mentions: Vec<UserSpecifier> = Vec::new();
    let mut i: usize = 0;
    while i < tags.len()
        invariant
            i <= tags@.len(),
            views(hashtags@) == hashtag_names(tags@.subrange(0, i as int)),
            specifier_views(mentions@) == mentioned_users(tags@.subrange(0, i as int)),
        decreases tags.len() - i,
    {
        let ghost pre = tags@.subrange(0, i as int);
        let ghost post = tags@.subrange(0, i + 1);
        assert(post.drop_last() =~= pre);
        match &tags[i] {
            TagEnum::Mention(m) => {
                mentions.push(UserSpecifier::from_url(m.href.clone()));
                assert(specifier_views(mentions@) =~= mentioned_users(post));
                assert(views(hashtags@) =~= hashtag_names(post));
            },
            TagEnum::Hashtag(h) => {
                hashtags.push(h.name.clone());
                assert(views(hashtags@) =~= hashtag_names(post));
                assert(specifier_views(mentions@) =~= mentioned_users(post));
            },
        }
        i = i + 1;
    }
    assert(tags@.subrange(0, tags@.len() as int) =~= tags@);
    (hashtags, mentions)
}

/// The post that a received note asks for: a reply when the note answers
/// another object (named by that object's id), a normal post otherwise;
/// its URI is the note's id, its poster the note's author (by URL), its
/// privacy what the note's `to`+`bto` and `cc`+`bcc` addressing expresses.
pub open spec fn note_request_matches(note: &Note, r: &PostCreateRequest) -> bool {
    &&& r.spec_privacy() == note_privacy(with_blind(note.to@, note.bto), with_blind(note.cc@, note.bcc))
    &&& r.spec_poster()@ == SpecifierView::URL(note.attributed_to@)
    &&& crate::ids::opt_view(r.spec_uri()) == Some(note.id@)
    &&& r.spec_created_at() == Some(note.published)
    &&& views(r.spec_hint().hashtags@) == hashtag_names(note_tags(note))
    &&& specifier_views(r.spec_hint().mentions@) == mentioned_users(note_tags(note))
    &&& match (note.in_reply_to, r) {
        (Some(target), PostCreateRequest::Reply(reply)) => {
            &&& reply.content@ == note.content@
            &&& reply.reply_to matches PostSpecifier::URI(u) && u@ == (*target).spec_id()
        },
        (None, PostCreateRequest::Normal(normal)) => normal.content@ == note.content@,
        _ => false,
    }
}

impl PostCreateRequest {
    /// The post that a received note asks for. Every note is accepted.
    pub fn try_from(value: Note) -> (r: Result<PostCreateRequest, ApubNoteError>)
        ensures
            r matches Ok(req) && note_request_matches(&value, &req),
    {
        let tags: Vec<TagEnum> = match value.tags {
            Some(t) => t,
            None => Vec::new(),
        };
        let (hashtags, mentions) = split_tags(&tags);
        let to = join_addresses(&value.to, &value.bto);
        let cc = join_addresses(&value.cc, &value.bcc);
        let privacy = classify_privacy(&to, &cc);
        let hints = PostHint { hashtags, mentions };
        let poster = UserSpecifier::from_url(value.attributed_to);
        match value.in_reply_to {
            Some(target) => {
                let target_id = (*target).get_id().to_owned();
                let reply_to = PostSpecifier::from_uri(target_id);
                Ok(
                    PostCreateRequest::Reply(
                        PostCreateRequestReply {
                            poster,
                            uri: Some(value.id),
                            created_at: Some(value.published),
                            content: value.content,
                            privacy,
                            reply_to,
                            hints,
                        },
                    ),
                )
            },
            None => Ok(
                PostCreateRequest::Normal(
                    PostCreateRequestNormal {
                        poster,
                        uri: Some(value.id),
                        created_at: Some(value.published),
                        content: value.content,
                        privacy,
                        hints,
                    },
                ),
            ),
        }
    }
}

} // verus!
