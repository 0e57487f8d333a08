//! Naming a user: by id, by `@username[@host]`, or by URL; and resolving a
//! webfinger `acct:` resource.
use crate::ext::{parse_uuid, url_decode, url_decoded, uuid_parsed};
use crate::text::{
    char_index, find_char, free_of, lemma_split_concat, lemma_split_free, split, split_char,
    starts_with, str_eq, substring, views, has_prefix,
};
use vstd::prelude::*;

verus! {

/// A user, named by id, by username and optional host, or by URL.
#[derive(Debug, Clone)]
pub enum UserSpecifier {
    ID(u128),
    Username(String, Option<String>),
    URL(String),
}

/// The value a user specifier names.
pub enum SpecifierView {
    ID(u128),
    Username(Seq<char>, Option<Seq<char>>),
    URL(Seq<char>),
}

/// The text of an optional string.
pub open spec fn opt_text(o: Option<String>) -> Option<Seq<char>> {
    match o {
        Some(s) => Some(s@),
        None => None,
    }
}

impl View for UserSpecifier {
    type V = SpecifierView;

    open spec fn view(&self) -> SpecifierView {
        match self {
            UserSpecifier::ID(u) => SpecifierView::ID(*u),
            UserSpecifier::Username(n, h) => SpecifierView::Username(n@, opt_text(*h)),
            UserSpecifier::URL(u) => SpecifierView::URL(u@),
        }
    }
}

/// Why a user specifier could not be read.
#[derive(Debug, Clone, Copy, PartialEq, Eq, Structural)]
pub enum UserSpecifierParseError {
    InvalidFormat,
    InvalidLocalID,
}

/// How a specifier is read: `@name` or `@name@host` names a user by
/// username (more `@` is refused); anything else must be a UUID.
pub open spec fn parse_specifier(s: Seq<char>) -> Result<SpecifierView, UserSpecifierParseError> {
    if has_prefix(s, "@"@) {
        let parts = split(s.drop_first(), '@');
        if parts.len() == 1 {
            Ok(SpecifierView::Username(parts[0], None))
        } else if parts.len() == 2 {
            Ok(SpecifierView::Username(parts[0], Some(parts[1])))
        } else {
            Err(UserSpecifierParseError::InvalidFormat)
        }
    } else {
        match uuid_parsed(s) {
            Some(u) => Ok(SpecifierView::ID(u)),
            None => Err(UserSpecifierParseError::InvalidFormat),
        }
    }
}

/// The value of a parse result.
pub open spec fn parse_result_view(r: Result<UserSpecifier, UserSpecifierParseError>) -> Result<
    SpecifierView,
    UserSpecifierParseError,
> {
    match r {
        Ok(u) => Ok(u@),
        Err(e) => Err(e),
    }
}

impl UserSpecifier {
    /// Reads a user specifier.
    pub fn parse(s: &str) -> (r: Result<Self, UserSpecifierParseError>)
        ensures
            parse_result_view(r) == parse_specifier(s@),
    {
        if starts_with(s, "@") {
            proof {
                reveal_strlit("@");
            }
            let n = s.unicode_len();
            let rest = substring(s, 1, n);
            assert(rest@ =~= s@.drop_first());
            let parts = split_char(rest.as_str(), '@');
            assert(views(parts@).len() == parts@.len());
            if parts.len() == 1 {
                assert(views(parts@)[0] == parts@[0]@);
                return Ok(UserSpecifier::Username(parts[0].clone(), None));
            }
            if parts.len() == 2 {
                assert(views(parts@)[0] == parts@[0]@);
                assert(views(parts@)[1] == parts@[1]@);
                return Ok(UserSpecifier::Username(parts[0].clone(), Some(parts[1].clone())));
            }
            return Err(UserSpecifierParseError::InvalidFormat);
        }
        match parse_uuid(s) {
            Some(u) => Ok(UserSpecifier::ID(u)),
            None => Err(UserSpecifierParseError::InvalidFormat),
        }
    }

    pub fn from_id(id: u128) -> (r: Self)
        ensures
            r@ == SpecifierView::ID(id),
    {
        UserSpecifier::ID(id)
    }

    pub fn from_username(username: String, hostname: Option<String>) -> (r: Self)
        ensures
            r@ == SpecifierView::Username(username@, opt_text(hostname)),
    {
        UserSpecifier::Username(username, hostname)
    }

    pub fn from_url(url: String) -> (r: Self)
        ensures
            r@ == SpecifierView::URL(url@),
    {
        UserSpecifier::URL(url)
    }
}

/// Why a webfinger resource is refused: malformed (400) or naming an
/// account on another host (404).
#[derive(Debug, Clone, Copy, PartialEq, Eq, Structural)]
pub enum WebfingerRejection {
    BadRequest,
    NotFound,
}

/// How a decoded webfinger resource is resolved: it must be `acct:<id>`
/// (exactly one `:`); `<id>` is a bare username, or `username@host` with
/// exactly one `@` and our own host. The result holds the account id (the
/// response's subject) and the local username.
pub open spec fn webfinger_resolution(resource: Seq<char>, hostname: Seq<char>) -> Result<
    (Seq<char>, Seq<char>),
    WebfingerRejection,
> {
    let parts = split(resource, ':');
    if parts.len() != 2 || parts[0] != "acct"@ {
        Err(WebfingerRejection::BadRequest)
    } else {
        let acct = parts[1];
        if !acct.contains('@') {
            Ok((acct, acct))
        } else {
            let names = split(acct, '@');
            if names.len() != 2 {
                Err(WebfingerRejection::BadRequest)
            } else if names[1] != hostname {
                Err(WebfingerRejection::NotFound)
            } else {
                Ok((acct, names[0]))
            }
        }
    }
}

/// The text of a resolution.
pub open spec fn resolution_view(r: Result<(String, String), WebfingerRejection>) -> Result<
    (Seq<char>, Seq<char>),
    WebfingerRejection,
> {
    match r {
        Ok((a, u)) => Ok((a@, u@)),
        Err(e) => Err(e),
    }
}

/// Resolves a decoded webfinger resource against our hostname.
pub fn parse_webfinger_resource(resource: &str, hostname: &str) -> (r: Result<
    (String, String),
    WebfingerRejection,
>)
    ensures
        resolution_view(r) == webfinger_resolution(resource@, hostname@),
{
    let parts = split_char(resource, ':');
    assert(views(parts@).len() == parts@.len());
    if parts.len() != 2 {
        return Err(WebfingerRejection::BadRequest);
    }
    assert(views(parts@)[0] == parts@[0]@);
    assert(views(parts@)[1] == parts@[1]@);
    if !str_eq(parts[0].as_str(), "acct") {
        return Err(WebfingerRejection::BadRequest);
    }
    let acct = parts[1].as_str();
    match find_char(acct, '@') {
        None => {
            proof {
                if acct@.contains('@') {
                    let k = choose|k: int| 0 <= k < acct@.len() && acct@[k] == '@';
                    lemma_index_nonneg(acct@, k);
                }
            }
            Ok((acct.to_owned(), acct.to_owned()))
        },
        Some(k) => {
            assert(acct@[k as int] == '@') by {
                lemma_char_index_hit(acct@, '@');
            }
            let names = split_char(acct, '@');
            assert(views(names@).len() == names@.len());
            if names.len() != 2 {
                return Err(WebfingerRejection::BadRequest);
            }
            assert(views(names@)[0] == names@[0]@);
            assert(views(names@)[1] == names@[1]@);
            if !str_eq(names[1].as_str(), hostname) {
                return Err(WebfingerRejection::NotFound);
            }
            Ok((acct.to_owned(), names[0].clone()))
        },
    }
}

proof fn lemma_index_nonneg(s: Seq<char>, k: int)
    requires
        0 <= k < s.len(),
        s[k] == '@',
    ensures
        char_index(s, '@') >= 0,
    decreases s.len(),
{
    if s[0] != '@' {
        lemma_index_nonneg(s.drop_first(), k - 1);
    }
}

proof fn lemma_char_index_hit(s: Seq<char>, c: char)
    requires
        0 <= char_index(s, c) < s.len(),
    ensures
        s[char_index(s, c)] == c,
    decreases s.len(),
{
    if s[0] != c {
        lemma_char_index_hit(s.drop_first(), c);
    }
}

/// Decodes a raw webfinger resource and resolves it; `None` when the
/// percent-decoded bytes are not UTF-8.
pub fn webfinger_resource(raw_resource: &str, hostname: &str) -> (r: Option<
    Result<(String, String), WebfingerRejection>,
>)
    ensures
        match url_decoded(raw_resource@) {
            Some(d) => r matches Some(res) && resolution_view(res) == webfinger_resolution(
                d,
                hostname@,
            ),
            None => r is None,
        },
{
    match url_decode(raw_resource) {
        Some(d) => Some(parse_webfinger_resource(d.as_str(), hostname)),
        None => None,
    }
}

/// A webfinger query for `acct:user@host` names the local user `user` when
/// `host` is this server's host, and no one here otherwise; a query for
/// `acct:user` names the local user `user` (for user names and hosts
/// without `:` or `@`).
pub proof fn lemma_webfinger_accounts(user: Seq<char>, host: Seq<char>, ours: Seq<char>)
    requires
        free_of(user, ':'),
        free_of(user, '@'),
        free_of(host, ':'),
        free_of(host, '@'),
    ensures
        webfinger_resolution("acct:"@ + user + "@"@ + host, ours) == (if host == ours {
            Ok::<(Seq<char>, Seq<char>), WebfingerRejection>((user + "@"@ + host, user))
        } else {
            Err::<(Seq<char>, Seq<char>), WebfingerRejection>(WebfingerRejection::NotFound)
        }),
        webfinger_resolution("acct:"@ + user, ours) == Ok::<(Seq<char>, Seq<char>), WebfingerRejection>(
            (user, user),
        ),
{
    reveal_strlit("acct:");
    reveal_strlit("acct");
    reveal_strlit("@");
    let acct = "acct"@;
    assert(free_of(acct, ':'));
    lemma_split_free(acct, ':');
    let full = user + "@"@ + host;
    assert(full =~= user + seq!['@'] + host);
    assert(free_of(full, ':')) by {
        assert forall|i: int| 0 <= i < full.len() implies full[i] != ':' by {
            if i < user.len() {
                assert(full[i] == user[i]);
            } else if i > user.len() {
                assert(full[i] == host[i - user.len() - 1]);
            }
        }
    }
    assert("acct:"@ + full =~= acct + seq![':'] + full);
    assert("acct:"@ + user + "@"@ + host =~= "acct:"@ + full);
    assert(full[user.len() as int] == '@');
    assert(full.contains('@'));
    lemma_split_concat(acct, full, ':');
    lemma_split_free(full, ':');
    assert(split("acct:"@ + full, ':') =~= seq![acct, full]);
    assert(full[user.len() as int] == '@');
    lemma_split_concat(user, host, '@');
    lemma_split_free(user, '@');
    lemma_split_free(host, '@');
    assert(split(full, '@') =~= seq![user, host]);
    assert("acct:"@ + user =~= acct + seq![':'] + user);
    lemma_split_concat(acct, user, ':');
    lemma_split_free(user, ':');
    assert(split("acct:"@ + user, ':') =~= seq![acct, user]);
    assert(!user.contains('@')) by {
        if user.contains('@') {
            let i = choose|i: int| 0 <= i < user.len() && user[i] == '@';
        }
    }
}

} // verus!
