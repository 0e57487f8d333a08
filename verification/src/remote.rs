//! What is asked of other servers, and what is made of their answers:
//! webfinger lookups and the follow requests sent to remote users.
use crate::apub::{FollowActivity, IdOrObject};
use crate::handlers::WebfingerLink;
use crate::ext::{uuid_simple_string, uuid_simple_text};
use crate::ids::{object_uri, opt_view, user_uri, HasRemoteUri, IDGetterService};
use crate::models::{clone_opt_string, ApubWebfingerResponse};
use crate::services::WebfingerError;
use crate::text::{concat, str_eq};
use vstd::prelude::*;

verus! {

/// The webfinger URL that names `username` on `host`.
pub open spec fn webfinger_url_text(username: Seq<char>, host: Seq<char>) -> Seq<char> {
    "https://"@ + host + "/.well-known/webfinger?resource=acct:"@ + username + "@"@ + host
}

/// The URL at which `host` answers who `username` is.
pub fn webfinger_url(username: &str, host: &str) -> (r: String)
    ensures
        r@ == webfinger_url_text(username@, host@),
{
    let mut s = concat("https://", host);
    s.append("/.well-known/webfinger?resource=acct:");
    s.append(username);
    s.append("@");
    s.append(host);
    s
}

/// A link of a webfinger answer as received: any field may be missing.
#[derive(Debug, Clone)]
pub struct WebfingerLinkFields {
    pub href: Option<String>,
    pub rel: Option<String>,
    pub link_type: Option<String>,
}

/// A received link with all its fields, as (rel, type, href).
pub open spec fn complete_link(l: WebfingerLinkFields) -> Option<(Seq<char>, Seq<char>, Seq<char>)> {
    match (l.rel, l.link_type, l.href) {
        (Some(r), Some(t), Some(h)) => Some((r@, t@, h@)),
        _ => None,
    }
}

/// The link that names the actor: relation `self` or type `application/activity+json`.
pub open spec fn is_actor_link(l: (Seq<char>, Seq<char>, Seq<char>)) -> bool {
    l.0 == "self"@ || l.1 == "application/activity+json"@
}

/// The link that names the profile page: its relation, or type `text/html`.
pub open spec fn is_profile_link(l: (Seq<char>, Seq<char>, Seq<char>)) -> bool {
    l.0 == "http://webfinger.net/rel/profile-page"@ || l.1 == "text/html"@
}

/// The link that is looked for: the actor's link, or else the profile page's.
pub open spec fn wanted_link(l: (Seq<char>, Seq<char>, Seq<char>), actor: bool) -> bool {
    if actor {
        is_actor_link(l)
    } else {
        is_profile_link(l)
    }
}

/// The href of the first complete link among `links` that is wanted.
pub open spec fn first_href(links: Seq<WebfingerLinkFields>, actor: bool) -> Option<Seq<char>>
    decreases links.len(),
{
    if links.len() == 0 {
        None
    } else {
        match complete_link(links[0]) {
            Some(l) => if wanted_link(l, actor) {
                Some(l.2)
            } else {
                first_href(links.drop_first(), actor)
            },
            None => first_href(links.drop_first(), actor),
        }
    }
}

/// The href of the first complete link that is the actor's (else the profile's).
fn find_href(links: &Vec<WebfingerLinkFields>, actor: bool) -> (r: Option<String>)
    ensures
        opt_view(r) == first_href(links@, actor),
{
    let mut i: usize = 0;
    assert(links@.subrange(0, links@.len() as int) =~= links@);
    while i < links.len()
        invariant
            i <= links@.len(),
            first_href(links@, actor) == first_href(links@.subrange(i as int, links@.len() as int), actor),
        decreases links.len() - i,
    {
        let ghost rest = links@.subrange(i as int, links@.len() as int);
        assert(rest[0] == links@[i as int]);
        assert(rest.drop_first() =~= links@.subrange(i + 1, links@.len() as int));
        let l = &links[i];
        match (&l.rel, &l.link_type, &l.href) {
            (Some(rel), Some(t), Some(h)) => {
                let hit = if actor {
                    str_eq(rel.as_str(), "self") || str_eq(t.as_str(), "application/activity+json")
                } else {
                    str_eq(rel.as_str(), "http://webfinger.net/rel/profile-page") || str_eq(
                        t.as_str(),
                        "text/html",
                    )
                };
                if hit {
                    return Some(h.clone());
                }
            },
            _ => {},
        }
        i = i + 1;
    }
    None
}

/// What a webfinger answer says: the actor's URL (the first complete link
/// that is `self` or of type `application/activity+json`) and the profile
/// page's URL if any; an answer without an actor link is refused.
pub fn webfinger_answer(links: &Vec<WebfingerLinkFields>) -> (r: Result<ApubWebfingerResponse, WebfingerError>)
    ensures
        match first_href(links@, true) {
            None => r matches Err(WebfingerError::ApiUrlNotFound),
            Some(api) => r matches Ok(w) && w.spec_api_url() == api && w.spec_profile_url()
                == first_href(links@, false),
        },
{
    let api = match find_href(links, true) {
        Some(a) => a,
        None => return Err(WebfingerError::ApiUrlNotFound),
    };
    let profile = find_href(links, false);
    Ok(ApubWebfingerResponse::new(api, profile))
}

/// The links of a served webfinger answer as a reader receives them.
pub open spec fn received_links(links: Seq<WebfingerLink>) -> Seq<WebfingerLinkFields> {
    links.map_values(
        |l: WebfingerLink|
            WebfingerLinkFields { href: Some(l.href), rel: Some(l.rel), link_type: Some(l.link_type) },
    )
}

/// The webfinger answer this server serves (one `self` link of type
/// `application/activity+json`) is read back by a reader of answers as
/// naming that link's actor, with no profile page.
pub proof fn lemma_served_webfinger_read_back(links: Seq<WebfingerLink>)
    requires
        links.len() == 1,
        links[0].rel@ == "self"@,
        links[0].link_type@ == "application/activity+json"@,
    ensures
        first_href(received_links(links), true) == Some(links[0].href@),
        first_href(received_links(links), false) is None,
{
    reveal_strlit("self");
    reveal_strlit("application/activity+json");
    reveal_strlit("http://webfinger.net/rel/profile-page");
    reveal_strlit("text/html");
    let r = received_links(links);
    assert(complete_link(r[0]) == Some((links[0].rel@, links[0].link_type@, links[0].href@)));
    assert(links[0].rel@ != "http://webfinger.net/rel/profile-page"@) by {
        assert(links[0].rel@.len() != "http://webfinger.net/rel/profile-page"@.len());
    }
    assert(links[0].link_type@ != "text/html"@) by {
        assert(links[0].link_type@.len() != "text/html"@.len());
    }
    assert(r.drop_first().len() == 0);
    assert(first_href(r.drop_first(), false) is None);
    assert(!wanted_link((links[0].rel@, links[0].link_type@, links[0].href@), false));
}

/// A user taking part in a follow request: its id and, for a remote user, its URI.
#[derive(Debug, Clone)]
pub struct UserFollowUser {
    pub id: u128,
    pub uri: Option<String>,
}

impl HasRemoteUri for UserFollowUser {
    open spec fn spec_local_id(&self) -> Seq<char> {
        uuid_simple_text(self.id)
    }

    open spec fn spec_remote_uri(&self) -> Option<Seq<char>> {
        opt_view(self.uri)
    }

    fn get_local_id(&self) -> (r: String) {
        uuid_simple_string(self.id)
    }

    fn get_remote_uri(&self) -> (r: Option<String>) {
        clone_opt_string(&self.uri)
    }
}

/// A stored follow request made by a local user: its id, and the two users.
#[derive(Debug, Clone)]
pub struct UserFollowInfo {
    pub req_id: u128,
    pub follower_id: u128,
    pub follower_uri: Option<String>,
    pub followee_id: u128,
    pub followee_uri: Option<String>,
}

impl HasRemoteUri for UserFollowInfo {
    open spec fn spec_local_id(&self) -> Seq<char> {
        uuid_simple_text(self.req_id)
    }

    open spec fn spec_remote_uri(&self) -> Option<Seq<char>> {
        None
    }

    fn get_local_id(&self) -> (r: String) {
        uuid_simple_string(self.req_id)
    }

    fn get_remote_uri(&self) -> (r: Option<String>) {
        None
    }
}

/// The `Follow` activity of a stored follow request: its id is the request's
/// URI, its actor the follower's URI, its object the followee's URI.
pub fn follow_request_activity(id_getter: &IDGetterService, uf: &UserFollowInfo) -> (r: FollowActivity)
    ensures
        r.id@ == object_uri(id_getter.base(), "/follow-req/"@, uuid_simple_text(uf.req_id), None),
        r.actor@ == user_uri(id_getter.base(), uuid_simple_text(uf.follower_id), opt_view(uf.follower_uri)),
        r.object matches IdOrObject::Id(o) && o@ == user_uri(
            id_getter.base(),
            uuid_simple_text(uf.followee_id),
            opt_view(uf.followee_uri),
        ),
{
    let id = id_getter.get_follower_request_id(uf);
    let follower = UserFollowUser { id: uf.follower_id, uri: clone_opt_string(&uf.follower_uri) };
    let followee = UserFollowUser { id: uf.followee_id, uri: clone_opt_string(&uf.followee_uri) };
    let actor = id_getter.get_user_id(&follower);
    let object = id_getter.get_user_id(&followee);
    FollowActivity { id, actor, object: IdOrObject::Id(object) }
}

} // verus!
