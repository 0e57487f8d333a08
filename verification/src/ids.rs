//! The URIs under which local users, posts and follow requests are published,
//! and the reverse: recognising one of our own follow-request URIs.
use crate::config::Config;
use crate::text::{concat, concat3, has_prefix, starts_with, substring};
use vstd::prelude::*;

verus! {

/// The text of an optional string.
pub open spec fn opt_view(o: Option<String>) -> Option<Seq<char>> {
    match o {
        Some(s) => Some(s@),
        None => None,
    }
}

/// Something stored either locally (known by its local id) or on a remote
/// server (known by its URI there).
pub trait HasRemoteUri {
    spec fn spec_local_id(&self) -> Seq<char>;

    spec fn spec_remote_uri(&self) -> Option<Seq<char>>;

    fn get_local_id(&self) -> (r: String)
        ensures
            r@ == self.spec_local_id(),
    ;

    fn get_remote_uri(&self) -> (r: Option<String>)
        ensures
            opt_view(r) == self.spec_remote_uri(),
    ;
}

/// The sub-resources of a user.
#[derive(Debug, Clone, Copy, PartialEq, Eq, Structural)]
pub enum UserAttribute {
    Inbox,
    Outbox,
    Following,
    Followers,
    Liked,
    PublicKey,
}

/// What is appended to a user's URI to reach a sub-resource.
pub open spec fn attribute_suffix(a: UserAttribute) -> Seq<char> {
    match a {
        UserAttribute::Inbox => "/inbox"@,
        UserAttribute::Outbox => "/outbox"@,
        UserAttribute::Following => "/following"@,
        UserAttribute::Followers => "/followers"@,
        UserAttribute::Liked => "/liked"@,
        UserAttribute::PublicKey => "#main-key"@,
    }
}

impl UserAttribute {
    pub fn as_url(&self) -> (r: String)
        ensures
            r@ == attribute_suffix(*self),
    {
        match self {
            UserAttribute::Inbox => "/inbox",
            UserAttribute::Outbox => "/outbox",
            UserAttribute::Following => "/following",
            UserAttribute::Followers => "/followers",
            UserAttribute::Liked => "/liked",
            UserAttribute::PublicKey => "#main-key",
        }.to_owned()
    }
}

/// The URI of an object: its remote URI, or `base` + `kind` + its local id.
pub open spec fn object_uri(
    base: Seq<char>,
    kind: Seq<char>,
    local_id: Seq<char>,
    remote: Option<Seq<char>>,
) -> Seq<char> {
    match remote {
        Some(uri) => uri,
        None => base + kind + local_id,
    }
}

/// The URI of a user.
pub open spec fn user_uri(base: Seq<char>, local_id: Seq<char>, remote: Option<Seq<char>>) -> Seq<
    char,
> {
    object_uri(base, "/user/"@, local_id, remote)
}

/// The URI of a local user's sub-resource; remote users have none that we publish.
pub open spec fn user_attr_uri(
    base: Seq<char>,
    local_id: Seq<char>,
    remote: Option<Seq<char>>,
    attr: UserAttribute,
) -> Option<Seq<char>> {
    match remote {
        Some(_) => None,
        None => Some(base + "/user/"@ + local_id + attribute_suffix(attr)),
    }
}

/// Our follow-request id carried by `uri`, when `uri` is one of our
/// follow-request URIs.
pub open spec fn follow_request_id_in(base: Seq<char>, uri: Seq<char>) -> Option<Seq<char>> {
    let prefix = base + "/follow-req/"@;
    if has_prefix(uri, prefix) {
        Some(uri.subrange(prefix.len() as int, uri.len() as int))
    } else {
        None
    }
}

/// Builds the URIs of users, posts and follow requests.
#[derive(Debug, Clone)]
pub struct IDGetterService {
    config: Config,
}

impl IDGetterService {
    pub closed spec fn base(&self) -> Seq<char> {
        self.config.spec_base_url()
    }

    pub fn new(config: Config) -> (r: Self)
        ensures
            r.base() == config.spec_base_url(),
    {
        Self { config }
    }

    /// The user's URI: its remote URI, or `base/user/<local id>`.
    pub fn get_user_id<U: HasRemoteUri>(&self, user: &U) -> (r: String)
        ensures
            r@ == user_uri(self.base(), user.spec_local_id(), user.spec_remote_uri()),
    {
        if let Some(uri) = user.get_remote_uri() {
            uri
        } else {
            let base = self.config.base_url();
            let id = user.get_local_id();
            concat3(base.as_str(), "/user/", id.as_str())
        }
    }

    /// The URI of a local user's sub-resource; `None` for a remote user.
    pub fn get_user_id_attr<U: HasRemoteUri>(&self, user: &U, attr: UserAttribute) -> (r: Option<
        String,
    >)
        ensures
            opt_view(r) == user_attr_uri(
                self.base(),
                user.spec_local_id(),
                user.spec_remote_uri(),
                attr,
            ),
    {
        match user.get_remote_uri() {
            Some(_) => None,
            None => {
                let base = self.get_user_id(user);
                let suffix = attr.as_url();
                Some(concat(base.as_str(), suffix.as_str()))
            },
        }
    }

    /// The post's URI: its remote URI, or `base/post/<local id>`.
    pub fn get_post_id<P: HasRemoteUri>(&self, post: &P) -> (r: String)
        ensures
            r@ == object_uri(self.base(), "/post/"@, post.spec_local_id(), post.spec_remote_uri()),
    {
        if let Some(uri) = post.get_remote_uri() {
            uri
        } else {
            let base = self.config.base_url();
            let id = post.get_local_id();
            concat3(base.as_str(), "/post/", id.as_str())
        }
    }

    /// The follow request's URI: its remote URI, or `base/follow-req/<local id>`.
    pub fn get_follower_request_id<F: HasRemoteUri>(&self, follow_req: &F) -> (r: String)
        ensures
            r@ == object_uri(
                self.base(),
                "/follow-req/"@,
                follow_req.spec_local_id(),
                follow_req.spec_remote_uri(),
            ),
    {
        if let Some(uri) = follow_req.get_remote_uri() {
            uri
        } else {
            let base = self.config.base_url();
            let id = follow_req.get_local_id();
            concat3(base.as_str(), "/follow-req/", id.as_str())
        }
    }

    /// The local id in one of our follow-request URIs; `None` for any other URI.
    pub fn extract_follow_request_id(&self, follow_req_uri: &str) -> (r: Option<String>)
        ensures
            opt_view(r) == follow_request_id_in(self.base(), follow_req_uri@),
    {
        let base_url = self.config.base_url();
        if starts_with(follow_req_uri, base_url.as_str()) {
            let base = concat(base_url.as_str(), "/follow-req/");
            if starts_with(follow_req_uri, base.as_str()) {
                let n = follow_req_uri.unicode_len();
                let m = base.unicode_len();
                Some(substring(follow_req_uri, m, n))
            } else {
                None
            }
        } else {
            proof {
                let prefix = self.base() + "/follow-req/"@;
                if has_prefix(follow_req_uri@, prefix) {
                    assert(follow_req_uri@.subrange(0, self.base().len() as int) =~= prefix.subrange(
                        0,
                        self.base().len() as int,
                    ));
                    assert(prefix.subrange(0, self.base().len() as int) =~= self.base());
                }
            }
            None
        }
    }
}

/// Reading back a local follow request's URI gives its local id.
pub proof fn lemma_follow_request_id_roundtrip(base: Seq<char>, local_id: Seq<char>)
    ensures
        follow_request_id_in(base, object_uri(base, "/follow-req/"@, local_id, None)) == Some(
            local_id,
        ),
{
    let prefix = base + "/follow-req/"@;
    let uri = prefix + local_id;
    assert(object_uri(base, "/follow-req/"@, local_id, None) == uri);
    assert(uri.subrange(0, prefix.len() as int) =~= prefix);
    assert(uri.subrange(prefix.len() as int, uri.len() as int) =~= local_id);
}

/// The id service for a configuration.
pub fn new_id_getter_service(config: Config) -> (r: IDGetterService)
    ensures
        r.base() == config.spec_base_url(),
{
    IDGetterService::new(config)
}

} // verus!
