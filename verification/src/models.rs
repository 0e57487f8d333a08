//! Shared data types: HTTP methods, post privacy, ActivityPub objects.
use vstd::prelude::*;

verus! {

/// HTTP request methods that the server handles.
#[derive(Debug, Clone, Copy, PartialEq, Eq, Structural)]
pub enum Method {
    GET,
    POST,
    PUT,
    PATCH,
    DELETE,
}

/// The method's name as written on the wire.
pub open spec fn method_name(m: Method) -> Seq<char> {
    match m {
        Method::GET => "GET"@,
        Method::POST => "POST"@,
        Method::PUT => "PUT"@,
        Method::PATCH => "PATCH"@,
        Method::DELETE => "DELETE"@,
    }
}

impl Method {
    /// The method's name as written on the wire.
    pub fn as_str(&self) -> (r: &'static str)
        ensures
            r@ == method_name(*self),
    {
        match self {
            Method::GET => "GET",
            Method::POST => "POST",
            Method::PUT => "PUT",
            Method::PATCH => "PATCH",
            Method::DELETE => "DELETE",
        }
    }
}

} // verus!

verus! {

/// Who may see a post.
#[derive(Debug, Clone, Copy, PartialEq, Eq, Structural)]
pub enum PostPrivacy {
    Public,
    Unlisted,
    Followers,
    Private,
}

/// How a privacy is written in storage.
pub open spec fn privacy_db_text(p: PostPrivacy) -> Seq<char> {
    match p {
        PostPrivacy::Public => "public"@,
        PostPrivacy::Unlisted => "unlisted"@,
        PostPrivacy::Followers => "follower"@,
        PostPrivacy::Private => "private"@,
    }
}

impl PostPrivacy {
    /// How the privacy is written in storage.
    pub fn to_db(&self) -> (r: String)
        ensures
            r@ == privacy_db_text(*self),
    {
        match self {
            PostPrivacy::Public => "public",
            PostPrivacy::Unlisted => "unlisted",
            PostPrivacy::Followers => "follower",
            PostPrivacy::Private => "private",
        }.to_owned()
    }
}

} // verus!

verus! {

/// The ActivityStreams address that stands for "everyone".
pub const PUBLIC: &'static str = "https://www.w3.org/ns/activitystreams#Public";

/// A user as stored: local users have no URI, remote users have the URIs
/// their server published.
#[derive(Debug)]
pub struct User {
    pub id: u128,
    pub username: String,
    pub host: Option<String>,
    pub nickname: String,
    pub bio: String,
    pub uri: Option<String>,
    pub shared_inbox: Option<String>,
    pub inbox: Option<String>,
    pub outbox: Option<String>,
    pub public_key: Option<String>,
    pub created_at: i64,
}

/// A copy of an optional string.
pub fn clone_opt_string(o: &Option<String>) -> (r: Option<String>)
    ensures
        crate::ids::opt_view(r) == crate::ids::opt_view(*o),
{
    match o {
        Some(s) => Some(s.clone()),
        None => None,
    }
}

impl crate::ids::HasRemoteUri for User {
    open spec fn spec_local_id(&self) -> Seq<char> {
        crate::ext::uuid_simple_text(self.id)
    }

    open spec fn spec_remote_uri(&self) -> Option<Seq<char>> {
        crate::ids::opt_view(self.uri)
    }

    fn get_local_id(&self) -> (r: String) {
        crate::ext::uuid_simple_string(self.id)
    }

    fn get_remote_uri(&self) -> (r: Option<String>) {
        clone_opt_string(&self.uri)
    }
}

/// The result of a webfinger lookup: where the account's ActivityPub actor
/// lives, and its profile page if any.
#[derive(Debug, Clone)]
pub struct ApubWebfingerResponse {
    api_url: String,
    profile_url: Option<String>,
}

impl ApubWebfingerResponse {
    pub closed spec fn spec_api_url(&self) -> Seq<char> {
        self.api_url@
    }

    pub closed spec fn spec_profile_url(&self) -> Option<Seq<char>> {
        crate::ids::opt_view(self.profile_url)
    }

    pub fn new(api_url: String, profile_url: Option<String>) -> (r: Self)
        ensures
            r.spec_api_url() == api_url@,
            r.spec_profile_url() == crate::ids::opt_view(profile_url),
    {
        Self { api_url, profile_url }
    }

    pub fn api_url(&self) -> (r: &String)
        ensures
            r@ == self.spec_api_url(),
    {
        &self.api_url
    }

    pub fn profile_url(&self) -> (r: &Option<String>)
        ensures
            crate::ids::opt_view(*r) == self.spec_profile_url(),
    {
        &self.profile_url
    }
}

/// Counts shown with a post.
#[derive(Debug, Clone)]
pub struct PostCounts {
    pub reactions: Vec<PostReaction>,
    pub replies: i64,
    pub reposts: i64,
    pub quotes: i64,
}

/// One reaction and how many times a post received it.
#[derive(Debug, Clone)]
pub struct PostReaction {
    pub name: String,
    pub count: i64,
}

/// The privacy written in storage as `s`, if `s` is one of the four names.
pub open spec fn privacy_from_db_text(s: Seq<char>) -> Option<PostPrivacy> {
    if s == "public"@ {
        Some(PostPrivacy::Public)
    } else if s == "unlisted"@ {
        Some(PostPrivacy::Unlisted)
    } else if s == "follower"@ {
        Some(PostPrivacy::Followers)
    } else if s == "private"@ {
        Some(PostPrivacy::Private)
    } else {
        None
    }
}

/// How a privacy is written in storage.
pub fn post_privacy_to_db(privacy: PostPrivacy) -> (r: &'static str)
    ensures
        r@ == privacy_db_text(privacy),
{
    match privacy {
        PostPrivacy::Public => "public",
        PostPrivacy::Unlisted => "unlisted",
        PostPrivacy::Followers => "follower",
        PostPrivacy::Private => "private",
    }
}

/// The privacy read from storage. Storage only ever holds the four names.
pub fn post_privacy_from_db(privacy: &str) -> (r: PostPrivacy)
    requires
        privacy_from_db_text(privacy@) is Some,
    ensures
        Some(r) == privacy_from_db_text(privacy@),
{
    if crate::text::str_eq(privacy, "public") {
        PostPrivacy::Public
    } else if crate::text::str_eq(privacy, "unlisted") {
        PostPrivacy::Unlisted
    } else if crate::text::str_eq(privacy, "follower") {
        PostPrivacy::Followers
    } else {
        PostPrivacy::Private
    }
}

/// The privacy named in a request body: `public`, `unlisted`, `follower`
/// (the name the privacy is stored and sent under) or `followers`, `private`.
pub open spec fn privacy_from_request_text(s: Seq<char>) -> Option<PostPrivacy> {
    if s == "public"@ {
        Some(PostPrivacy::Public)
    } else if s == "unlisted"@ {
        Some(PostPrivacy::Unlisted)
    } else if s == "follower"@ || s == "followers"@ {
        Some(PostPrivacy::Followers)
    } else if s == "private"@ {
        Some(PostPrivacy::Private)
    } else {
        None
    }
}

impl PostPrivacy {
    /// Reads the privacy named in a request body; any other name is refused.
    pub fn deserialize(s: &str) -> (r: Option<PostPrivacy>)
        ensures
            r == privacy_from_request_text(s@),
    {
        if crate::text::str_eq(s, "public") {
            Some(PostPrivacy::Public)
        } else if crate::text::str_eq(s, "unlisted") {
            Some(PostPrivacy::Unlisted)
        } else if crate::text::str_eq(s, "follower") || crate::text::str_eq(s, "followers") {
            Some(PostPrivacy::Followers)
        } else if crate::text::str_eq(s, "private") {
            Some(PostPrivacy::Private)
        } else {
            None
        }
    }
}

/// Storing a privacy and reading it back gives the same privacy.
pub proof fn lemma_privacy_db_roundtrip(p: PostPrivacy)
    ensures
        privacy_from_db_text(privacy_db_text(p)) == Some(p),
{
    reveal_strlit("public");
    reveal_strlit("unlisted");
    reveal_strlit("follower");
    reveal_strlit("private");
    assert("public"@[0] != "unlisted"@[0]);
    assert("public"@[0] != "follower"@[0]);
    assert("public"@[1] != "private"@[1]);
    assert("unlisted"@[0] != "follower"@[0]);
    assert("unlisted"@[0] != "private"@[0]);
    assert("follower"@[0] != "private"@[0]);
}

/// A privacy written under its stored name is read back by a request body
/// as the same privacy.
pub proof fn lemma_privacy_request_reads_stored_name(p: PostPrivacy)
    ensures
        privacy_from_request_text(privacy_db_text(p)) == Some(p),
{
    reveal_strlit("public");
    reveal_strlit("unlisted");
    reveal_strlit("follower");
    reveal_strlit("followers");
    reveal_strlit("private");
    assert("public"@[0] != "unlisted"@[0]);
    assert("public"@.len() != "follower"@.len());
    assert("public"@.len() != "followers"@.len());
    assert("unlisted"@[0] != "follower"@[0]);
    assert("unlisted"@.len() != "followers"@.len());
    assert("private"@.len() != "followers"@.len());
    assert("public"@[1] != "private"@[1]);
    assert("unlisted"@[0] != "private"@[0]);
    assert("follower"@[0] != "private"@[0]);
}

/// A key in PEM form as it is stored: trailing newlines removed, then one
/// newline added (some servers send extra newlines, which key parsers refuse).
pub open spec fn normalized_pem(pem: Seq<char>) -> Seq<char> {
    crate::text::trim_end(pem, '\n').push('\n')
}

/// Normalizes a public key in PEM form to end with exactly one newline.
pub fn process_public_key_pem(pem: &str) -> (r: String)
    ensures
        r@ == normalized_pem(pem@),
{
    let mut trimmed = crate::text::trim_end_matches_char(pem, '\n');
    crate::text::push_char(&mut trimmed, '\n');
    trimmed
}

/// `trim_end` leaves text that does not end with the trimmed character.
proof fn lemma_trim_end_clean(s: Seq<char>, c: char)
    ensures
        crate::text::trim_end(s, c).len() == 0 || crate::text::trim_end(s, c).last() != c,
    decreases s.len(),
{
    if s.len() > 0 && s.last() == c {
        lemma_trim_end_clean(s.drop_last(), c);
    }
}

/// Normalizing a key twice is the same as normalizing it once.
pub proof fn lemma_normalized_pem_idempotent(pem: Seq<char>)
    ensures
        normalized_pem(normalized_pem(pem)) == normalized_pem(pem),
{
    let t = crate::text::trim_end(pem, '\n');
    lemma_trim_end_clean(pem, '\n');
    let n = t.push('\n');
    assert(n.drop_last() =~= t);
    assert(crate::text::trim_end(t, '\n') == t);
}

} // verus!
