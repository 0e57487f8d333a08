//! What the HTTP endpoints decide and answer, apart from the storage they
//! consult: request bodies read into requests, service failures turned into
//! answers, and the documents of the well-known endpoints.
use crate::api::{error_response_of, ErrorResponse, PostCreateRequest as PostBody};
use crate::config::Config;
use crate::ext::{parse_uuid, uuid_parsed, uuid_simple_string, uuid_simple_text};
use crate::models::{privacy_from_request_text, PostPrivacy};
use crate::policy::{post_create_error_status, PostCreateError};
use crate::services::{
    LocalUserFindError, PostCreateRequest, PostCreateRequestNormal, PostCreateRequestQuote,
    PostCreateRequestReply, PostCreateRequestRepost, PostHint, PostSpecifier, ServiceError,
    UserLoginError,
};
use crate::text::{concat, concat3, to_owned_string, views};
use crate::user_spec::{SpecifierView, UserSpecifier};
use vstd::prelude::*;

verus! {

/// A post request's body once its privacy and ids are read.
#[derive(Debug, Clone)]
pub struct PostForm {
    pub content: Option<String>,
    pub privacy: PostPrivacy,
    pub reply_to_id: Option<u128>,
    pub repost_of_id: Option<u128>,
}

/// An optional UUID text read: `Ok(None)` when absent, an error when it is
/// not a UUID.
pub open spec fn optional_uuid(o: Option<String>) -> Result<Option<u128>, ()> {
    match o {
        None => Ok(None),
        Some(s) => match uuid_parsed(s@) {
            Some(v) => Ok(Some(v)),
            None => Err(()),
        },
    }
}

fn read_optional_uuid(o: &Option<String>) -> (r: Result<Option<u128>, ()>)
    ensures
        r == optional_uuid(*o),
{
    match o {
        None => Ok(None),
        Some(s) => match parse_uuid(s.as_str()) {
            Some(v) => Ok(Some(v)),
            None => Err(()),
        },
    }
}

/// Reads a post request's body: the privacy must be one of its four names
/// and the ids must be UUIDs, else the request is refused with 400.
pub fn read_post_form(body: &PostBody) -> (r: Result<PostForm, ErrorResponse>)
    ensures
        match (
            privacy_from_request_text(body.privacy@),
            optional_uuid(body.reply_to_id),
            optional_uuid(body.repost_of_id),
        ) {
            (Some(p), Ok(reply), Ok(repost)) => r matches Ok(f) && f.privacy == p && f.reply_to_id
                == reply && f.repost_of_id == repost && crate::ids::opt_view(f.content)
                == crate::ids::opt_view(body.content),
            _ => r matches Err(e) && e.status == 400,
        },
{
    let privacy = match PostPrivacy::deserialize(body.privacy.as_str()) {
        Some(p) => p,
        None => return Err(ErrorResponse::new_status(400, "invalid privacy value")),
    };
    let reply_to_id = match read_optional_uuid(&body.reply_to_id) {
        Ok(v) => v,
        Err(()) => return Err(ErrorResponse::new_status(400, "invalid reply_to_id")),
    };
    let repost_of_id = match read_optional_uuid(&body.repost_of_id) {
        Ok(v) => v,
        Err(()) => return Err(ErrorResponse::new_status(400, "invalid repost_of_id")),
    };
    Ok(PostForm { content: crate::models::clone_opt_string(&body.content), privacy, reply_to_id, repost_of_id })
}

/// The hints of a post made through the API: none.
pub open spec fn no_hints(h: PostHint) -> bool {
    h.hashtags@.len() == 0 && h.mentions@.len() == 0
}

/// The post that the user `poster` asks for: a repost when it names a post
/// to repost and has no content, a quote when it has content too, a reply
/// when it names a post to answer, a normal post otherwise. Content is
/// required but for reposts; a post cannot both repost and reply.
pub fn post_request_for(poster: u128, form: PostForm) -> (r: Result<PostCreateRequest, ErrorResponse>)
    ensures
        match (form.repost_of_id, form.reply_to_id, form.content) {
            (Some(_), Some(_), _) => r matches Err(e) && e.status == 400 && e.message@
                == "repost_of_id and reply_to_id cannot be set at the same time"@,
            (None, _, None) => r matches Err(e) && e.status == 400 && e.message@
                == "content is null"@,
            (Some(target), None, None) => r matches Ok(PostCreateRequest::Repost(q)) && q.poster@
                == SpecifierView::ID(poster) && q.privacy == form.privacy && q.repost_of
                == PostSpecifier::ID(target) && q.uri is None && q.created_at is None && no_hints(
                q.hints,
            ),
            (Some(target), None, Some(c)) => r matches Ok(PostCreateRequest::Quote(q)) && q.poster@
                == SpecifierView::ID(poster) && q.privacy == form.privacy && q.repost_of
                == PostSpecifier::ID(target) && q.content@ == c@ && q.uri is None && q.created_at is None
                && no_hints(q.hints),
            (None, Some(target), Some(c)) => r matches Ok(PostCreateRequest::Reply(q)) && q.poster@
                == SpecifierView::ID(poster) && q.privacy == form.privacy && q.reply_to
                == PostSpecifier::ID(target) && q.content@ == c@ && q.uri is None && q.created_at is None
                && no_hints(q.hints),
            (None, None, Some(c)) => r matches Ok(PostCreateRequest::Normal(q)) && q.poster@
                == SpecifierView::ID(poster) && q.privacy == form.privacy && q.content@ == c@
                && q.uri is None && q.created_at is None && no_hints(q.hints),
        },
{
    let hints = PostHint { hashtags: Vec::new(), mentions: Vec::new() };
    match (form.repost_of_id, form.reply_to_id) {
        (None, None) => match form.content {
            Some(content) => Ok(
                PostCreateRequest::Normal(
                    PostCreateRequestNormal {
                        poster: UserSpecifier::from_id(poster),
                        uri: None,
                        created_at: None,
                        content,
                        privacy: form.privacy,
                        hints,
                    },
                ),
            ),
            None => Err(ErrorResponse::new_status(400, "content is null")),
        },
        (Some(target), None) => match form.content {
            Some(content) => Ok(
                PostCreateRequest::Quote(
                    PostCreateRequestQuote {
                        poster: UserSpecifier::from_id(poster),
                        uri: None,
                        created_at: None,
                        content,
                        privacy: form.privacy,
                        repost_of: PostSpecifier::from_id(target),
                        hints,
                    },
                ),
            ),
            None => Ok(
                PostCreateRequest::Repost(
                    PostCreateRequestRepost {
                        poster: UserSpecifier::from_id(poster),
                        uri: None,
                        created_at: None,
                        privacy: form.privacy,
                        repost_of: PostSpecifier::from_id(target),
                        hints,
                    },
                ),
            ),
        },
        (None, Some(target)) => match form.content {
            Some(content) => Ok(
                PostCreateRequest::Reply(
                    PostCreateRequestReply {
                        poster: UserSpecifier::from_id(poster),
                        uri: None,
                        created_at: None,
                        content,
                        privacy: form.privacy,
                        reply_to: PostSpecifier::from_id(target),
                        hints,
                    },
                ),
            ),
            None => Err(ErrorResponse::new_status(400, "content is null")),
        },
        (Some(_), Some(_)) => Err(
            ErrorResponse::new_status(400, "repost_of_id and reply_to_id cannot be set at the same time"),
        ),
    }
}

/// The message with which a post creation failure is answered.
pub open spec fn post_create_error_message(e: PostCreateError) -> Seq<char> {
    match e {
        PostCreateError::RepostOfNotFound => "repost_of_id not found"@,
        PostCreateError::ReplyToNotFound => "reply_to not found"@,
        PostCreateError::PostNotFound => "post not found"@,
        PostCreateError::DisallowedPrivacyForRepost => "privacy not allowed for a repost"@,
        PostCreateError::NestedRepost => "cannot repost or reply to a repost"@,
        _ => "internal server error"@,
    }
}

/// How a failed post creation is answered: a missing repost or reply target
/// is 404; a repost with a restricted privacy, or of or to a repost, is 400;
/// any other failure of the creation is 500; a general failure carries its
/// own status and message.
pub fn post_create_error_response(e: ServiceError<PostCreateError>) -> (r: ErrorResponse)
    ensures
        match e {
            ServiceError::SpecificError(s) => r.status == post_create_error_status(s) && r.message@
                == post_create_error_message(s),
            ServiceError::MiscError(m) => r.status == m.status && r.message@ == m.message@,
        },
{
    match e {
        ServiceError::SpecificError(s) => {
            let message = match s {
                PostCreateError::RepostOfNotFound => "repost_of_id not found",
                PostCreateError::ReplyToNotFound => "reply_to not found",
                PostCreateError::PostNotFound => "post not found",
                PostCreateError::DisallowedPrivacyForRepost => "privacy not allowed for a repost",
                PostCreateError::NestedRepost => "cannot repost or reply to a repost",
                _ => "internal server error",
            };
            ErrorResponse::new_status(s.status_code(), message)
        },
        ServiceError::MiscError(m) => ErrorResponse::new(m.status, m.message),
    }
}

/// How a failed login is answered: wrong credentials are 401.
pub fn login_error_response(e: ServiceError<UserLoginError>) -> (r: ErrorResponse)
    ensures
        match e {
            ServiceError::SpecificError(UserLoginError::AuthFailed) => r.status == 401 && r.message@
                == "auth failed"@,
            ServiceError::MiscError(m) => r.status == m.status && r.message@ == m.message@,
        },
{
    match e {
        ServiceError::SpecificError(UserLoginError::AuthFailed) => ErrorResponse::new_status(
            401,
            "auth failed",
        ),
        ServiceError::MiscError(m) => ErrorResponse::new(m.status, m.message),
    }
}

/// How a failed lookup of a local user is answered: a user of another server
/// is not found here (404); anything else as any service failure.
pub fn local_user_error_response(e: ServiceError<LocalUserFindError>) -> (r: ErrorResponse)
    ensures
        match e {
            ServiceError::SpecificError(LocalUserFindError::NotLocalUser) => r.status == 404
                && r.message@ == "user not found"@,
            ServiceError::SpecificError(_) => r.status == 500 && r.message@ == "internal server error"@,
            ServiceError::MiscError(m) => r.status == m.status && r.message@ == m.message@,
        },
{
    match e {
        ServiceError::SpecificError(LocalUserFindError::NotLocalUser) => ErrorResponse::new_status(
            404,
            "user not found",
        ),
        other => error_response_of(other),
    }
}

/// What the inbox makes of creating a received post: a post that already
/// exists is skipped silently; other failures are answered as such.
pub fn received_post_outcome(r: Result<u128, ServiceError<PostCreateError>>) -> (o: Result<
    (),
    ErrorResponse,
>)
    ensures
        match r {
            Ok(_) => o is Ok,
            Err(ServiceError::SpecificError(PostCreateError::AlreadyExists)) => o is Ok,
            Err(ServiceError::SpecificError(_)) => o matches Err(e) && e.status == 500
                && e.message@ == "internal server error"@,
            Err(ServiceError::MiscError(m)) => o matches Err(e) && e.status == m.status
                && e.message@ == m.message@,
        },
{
    match r {
        Ok(_) => Ok(()),
        Err(ServiceError::SpecificError(PostCreateError::AlreadyExists)) => Ok(()),
        Err(e) => Err(error_response_of(e)),
    }
}

/// A NodeInfo document (the fields this server publishes).
#[derive(Debug, Clone)]
pub struct NodeInfo {
    pub version: String,
    pub software_name: String,
    pub software_version: String,
    pub software_repository: String,
    pub protocols: Vec<String>,
    pub inbound_services: Vec<String>,
    pub outbound_services: Vec<String>,
    pub open_registrations: bool,
    pub node_name: String,
    pub node_description: String,
}

/// The NodeInfo document of the given schema version: the software is
/// lightpub 0.1, it speaks ActivityPub, connects no services, reports
/// registrations as closed, and is named and described as configured.
pub fn node_info(version: &str, config: &Config) -> (r: NodeInfo)
    ensures
        r.version@ == version@,
        r.software_name@ == "lightpub"@,
        r.software_version@ == "0.1"@,
        r.software_repository@ == "https://github.com/lightpub-dev/lightpub"@,
        views(r.protocols@) == seq!["activitypub"@],
        r.inbound_services@.len() == 0,
        r.outbound_services@.len() == 0,
        !r.open_registrations,
        r.node_name@ == config.instance.name@,
        r.node_description@ == config.instance.description@,
{
    let mut protocols: Vec<String> = Vec::new();
    protocols.push(to_owned_string("activitypub"));
    assert(views(protocols@) =~= seq!["activitypub"@]);
    NodeInfo {
        version: to_owned_string(version),
        software_name: to_owned_string("lightpub"),
        software_version: to_owned_string("0.1"),
        software_repository: to_owned_string("https://github.com/lightpub-dev/lightpub"),
        protocols,
        inbound_services: Vec::new(),
        outbound_services: Vec::new(),
        open_registrations: false,
        node_name: config.instance.name.clone(),
        node_description: config.instance.description.clone(),
    }
}

/// A link of the NodeInfo discovery document.
#[derive(Debug, Clone)]
pub struct NodeInfoLink {
    pub rel: String,
    pub href: String,
}

/// The NodeInfo discovery links: the schema 2.1 relation points at
/// `/nodeinfo/2.0` and the schema 2.0 relation at `/nodeinfo/2.1`.
pub fn node_info_links(base_url: &str) -> (r: Vec<NodeInfoLink>)
    ensures
        r@.len() == 2,
        r@[0].rel@ == "http://nodeinfo.diaspora.software/ns/schema/2.1"@,
        r@[0].href@ == base_url@ + "/nodeinfo/2.0"@,
        r@[1].rel@ == "http://nodeinfo.diaspora.software/ns/schema/2.0"@,
        r@[1].href@ == base_url@ + "/nodeinfo/2.1"@,
{
    let mut links: Vec<NodeInfoLink> = Vec::new();
    links.push(
        NodeInfoLink {
            rel: to_owned_string("http://nodeinfo.diaspora.software/ns/schema/2.1"),
            href: concat(base_url, "/nodeinfo/2.0"),
        },
    );
    links.push(
        NodeInfoLink {
            rel: to_owned_string("http://nodeinfo.diaspora.software/ns/schema/2.0"),
            href: concat(base_url, "/nodeinfo/2.1"),
        },
    );
    links
}

/// The host-meta document's text before the base URL.
pub const HOST_META_HEAD: &'static str = "\n    <?xml version=\"1.0\" encoding=\"UTF-8\"?>\n    <XRD xmlns=\"http://docs.oasis-open.org/ns/xri/xrd-1.0\">\n        <Link rel=\"lrdd\" type=\"application/xrd+xml\"\n            template=\"";

/// The host-meta document's text after the base URL.
pub const HOST_META_TAIL: &'static str = "/.well-known/webfinger?resource={uri}\" />\n    </XRD>\n    ";

/// The host-meta document, whose webfinger template starts with the base URL.
pub fn host_meta(base_url: &str) -> (r: String)
    ensures
        r@ == HOST_META_HEAD@ + base_url@ + HOST_META_TAIL@,
{
    concat3(HOST_META_HEAD, base_url, HOST_META_TAIL)
}

/// A link of a webfinger answer.
#[derive(Debug, Clone)]
pub struct WebfingerLink {
    pub rel: String,
    pub link_type: String,
    pub href: String,
}

/// A webfinger answer.
#[derive(Debug, Clone)]
pub struct WebfingerDocument {
    pub subject: String,
    pub links: Vec<WebfingerLink>,
}

/// The webfinger answer for the account `acct` of the local user `user_id`:
/// one `self` link to the user's ActivityPub actor.
pub fn webfinger_document(acct: &str, base_url: &str, user_id: u128) -> (r: WebfingerDocument)
    ensures
        r.subject@ == acct@,
        r.links@.len() == 1,
        r.links@[0].rel@ == "self"@,
        r.links@[0].link_type@ == "application/activity+json"@,
        r.links@[0].href@ == base_url@ + "/user/"@ + uuid_simple_text(user_id),
{
    let id = uuid_simple_string(user_id);
    let mut links: Vec<WebfingerLink> = Vec::new();
    links.push(
        WebfingerLink {
            rel: to_owned_string("self"),
            link_type: to_owned_string("application/activity+json"),
            href: concat3(base_url, "/user/", id.as_str()),
        },
    );
    WebfingerDocument { subject: to_owned_string(acct), links }
}

} // verus!
