use super::{same_opt, UtcDateTime, URI};
use crate::ext::{bcrypt_hash, bcrypt_verify, bcrypt_verify_outcome, parse_uuid, uuid_parsed};
use crate::text::{char_is_ascii_alnum, is_ascii_alnum};
use vstd::prelude::*;

verus! {

/// A user's id: the 128-bit value of its UUID.
#[derive(Debug, Clone, Copy, PartialEq, Eq, Structural)]
pub struct UserId(pub u128);

impl UserId {
    pub fn from_uuid(uuid: u128) -> (r: Self)
        ensures
            r.0 == uuid,
    {
        Self(uuid)
    }

    /// The id written as a UUID, if the text is one.
    pub fn from_str(uuid: &str) -> (r: Option<Self>)
        ensures
            match uuid_parsed(uuid@) {
                Some(v) => r == Some(UserId(v)),
                None => r is None,
            },
    {
        match parse_uuid(uuid) {
            Some(v) => Some(Self(v)),
            None => None,
        }
    }

    pub fn id(&self) -> (r: u128)
        ensures
            r == self.0,
    {
        self.0
    }
}

/// A character that may appear in a username.
pub open spec fn username_char(c: char) -> bool {
    is_ascii_alnum(c) || c == '-' || c == '_'
}

/// A character that may not start a username nor follow another such.
pub open spec fn username_separator(c: char) -> bool {
    c == '-' || c == '_'
}

/// A username is 3 to 16 characters long, holds only ASCII letters, digits,
/// `-` and `_`, does not start with `-` or `_`, and never has two of `-`/`_`
/// in a row.
pub open spec fn valid_username(s: Seq<char>) -> bool {
    &&& 3 <= s.len() <= 16
    &&& forall|i: int| 0 <= i < s.len() ==> username_char(#[trigger] s[i])
    &&& !username_separator(s[0])
    &&& forall|i: int|
        1 <= i < s.len() ==> !(username_separator(#[trigger] s[i]) && username_separator(s[i - 1]))
}

/// A valid username.
#[derive(Debug, Clone)]
pub struct Username(String);

impl View for Username {
    type V = Seq<char>;

    closed spec fn view(&self) -> Seq<char> {
        self.0@
    }
}

impl Username {
    /// The username, if the text is a valid one.
    pub fn from_str(username: &str) -> (r: Option<Self>)
        ensures
            valid_username(username@) ==> (r matches Some(u) && u@ == username@),
            !valid_username(username@) ==> r is None,
    {
        if Self::check(username) {
            Some(Self(username.to_owned()))
        } else {
            None
        }
    }

    /// Whether `username` is a valid username.
    pub fn check(username: &str) -> (r: bool)
        ensures
            r == valid_username(username@),
    {
        let n = username.unicode_len();
        let mut i: usize = 0;
        while i < n
            invariant
                i <= n,
                n == username@.len(),
                forall|j: int| 0 <= j < i ==> username_char(#[trigger] username@[j]),
            decreases n - i,
        {
            let ch = username.get_char(i);
            if !char_is_ascii_alnum(ch) && ch != '-' && ch != '_' {
                assert(!username_char(username@[i as int]));
                return false;
            }
            i = i + 1;
        }
        if n < 3 || n > 16 {
            return false;
        }
        let first = username.get_char(0);
        if first == '-' || first == '_' {
            return false;
        }
        let mut prev = first;
        let mut k: usize = 1;
        while k < n
            invariant
                1 <= k <= n,
                n == username@.len(),
                prev == username@[k - 1],
                forall|j: int|
                    1 <= j < k ==> !(username_separator(#[trigger] username@[j])
                        && username_separator(username@[j - 1])),
            decreases n - k,
        {
            let ch = username.get_char(k);
            if (ch == '-' || ch == '_') && (prev == '-' || prev == '_') {
                return false;
            }
            prev = ch;
            k = k + 1;
        }
        true
    }

    pub fn as_str(&self) -> (r: &str)
        ensures
            r@ == self@,
    {
        self.0.as_str()
    }
}

/// A display name; any text is accepted.
#[derive(Debug, Clone)]
pub struct Nickname(String);

impl View for Nickname {
    type V = Seq<char>;

    closed spec fn view(&self) -> Seq<char> {
        self.0@
    }
}

impl Nickname {
    pub fn from_str(nickname: &str) -> (r: Option<Self>)
        ensures
            r matches Some(n) && n@ == nickname@,
    {
        Some(Self(nickname.to_owned()))
    }
}

/// A private key in PEM form.
#[derive(Debug, Clone)]
pub struct PrivateKey(String);

impl View for PrivateKey {
    type V = Seq<char>;

    closed spec fn view(&self) -> Seq<char> {
        self.0@
    }
}

impl PrivateKey {
    pub fn from_str(private_key: String) -> (r: Option<Self>)
        ensures
            r matches Some(k) && k@ == private_key@,
    {
        Some(Self(private_key))
    }
}

/// A public key in PEM form.
#[derive(Debug, Clone)]
pub struct PublicKey(String);

impl View for PublicKey {
    type V = Seq<char>;

    closed spec fn view(&self) -> Seq<char> {
        self.0@
    }
}

impl PublicKey {
    pub fn from_str(public_key: String) -> (r: Option<Self>)
        ensures
            r matches Some(k) && k@ == public_key@,
    {
        Some(Self(public_key))
    }
}

/// A user: local users have a password and a private key; remote users have
/// a host and the URIs under which their server publishes them.
#[derive(Debug)]
pub struct User {
    pub id: UserId,
    pub username: Username,
    pub host: Option<String>,
    pub bpasswd: Option<String>,
    pub nickname: Nickname,
    pub bio: String,
    pub uri: Option<URI>,
    pub shared_inbox: Option<URI>,
    pub inbox: Option<URI>,
    pub outbox: Option<URI>,
    pub private_key: Option<PrivateKey>,
    pub public_key: Option<PublicKey>,
    pub created_at: UtcDateTime,
}

/// Whether `password` matches the stored password hash, if there is one.
pub open spec fn password_matches(bpasswd: Option<String>, password: Seq<char>) -> bool {
    match bpasswd {
        Some(h) => bcrypt_verify_outcome(password, h@) == Some(true),
        None => false,
    }
}

impl User {
    /// A new local user with no password, keys or URIs yet.
    pub fn new(id: UserId, username: Username, nickname: Nickname, created_at: UtcDateTime) -> (r:
        Self)
        ensures
            r.id == id,
            r.username@ == username@,
            r.nickname@ == nickname@,
            r.created_at == created_at,
            r.host is None,
            r.bpasswd is None,
            r.bio@ == Seq::<char>::empty(),
            r.uri is None,
            r.shared_inbox is None,
            r.inbox is None,
            r.outbox is None,
            r.private_key is None,
            r.public_key is None,
    {
        Self {
            id,
            username,
            host: None,
            bpasswd: None,
            nickname,
            bio: String::new(),
            uri: None,
            shared_inbox: None,
            inbox: None,
            outbox: None,
            private_key: None,
            public_key: None,
            created_at,
        }
    }

    pub fn id(&self) -> (r: UserId)
        ensures
            r == self.id,
    {
        self.id
    }

    pub fn uri(&self) -> (r: Option<&URI>)
        ensures
            same_opt(r, self.uri),
    {
        self.uri.as_ref()
    }

    pub fn inbox(&self) -> (r: Option<&URI>)
        ensures
            same_opt(r, self.inbox),
    {
        self.inbox.as_ref()
    }

    pub fn shared_inbox(&self) -> (r: Option<&URI>)
        ensures
            same_opt(r, self.shared_inbox),
    {
        self.shared_inbox.as_ref()
    }

    pub fn outbox(&self) -> (r: Option<&URI>)
        ensures
            same_opt(r, self.outbox),
    {
        self.outbox.as_ref()
    }

    /// Stores a bcrypt hash of the password; reports whether hashing
    /// succeeded (the user is left unchanged when it did not).
    pub fn set_password(&mut self, plain_passwd: &str) -> (r: bool)
        ensures
            r ==> password_matches(final(self).bpasswd, plain_passwd@),
            !r ==> final(self).bpasswd == old(self).bpasswd,
            final(self).id == old(self).id,
            final(self).username == old(self).username,
            final(self).host == old(self).host,
            final(self).nickname == old(self).nickname,
            final(self).bio == old(self).bio,
            final(self).uri == old(self).uri,
            final(self).shared_inbox == old(self).shared_inbox,
            final(self).inbox == old(self).inbox,
            final(self).outbox == old(self).outbox,
            final(self).private_key == old(self).private_key,
            final(self).public_key == old(self).public_key,
            final(self).created_at == old(self).created_at,
    {
        match bcrypt_hash(plain_passwd) {
            Some(h) => {
                self.bpasswd = Some(h);
                true
            },
            None => false,
        }
    }

    /// Whether the password matches the stored hash; false for a user with
    /// no password and for a hash that bcrypt cannot read.
    pub fn validate_password(&self, plain_passwd: &str) -> (r: bool)
        ensures
            r == password_matches(self.bpasswd, plain_passwd@),
    {
        match &self.bpasswd {
            Some(h) => match bcrypt_verify(plain_passwd, h.as_str()) {
                Some(b) => b,
                None => false,
            },
            None => false,
        }
    }
}

} // verus!
