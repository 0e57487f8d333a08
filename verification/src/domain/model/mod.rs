pub mod auth;
pub mod ctx;
pub mod follow;
pub mod post;
pub mod user;

use vstd::prelude::*;

verus! {

/// A point in time, as milliseconds since the Unix epoch (UTC).
#[derive(Debug, Clone, Copy, PartialEq, Eq, Structural)]
pub struct UtcDateTime {
    pub millis: i64,
}

impl UtcDateTime {
    pub fn from_millis(millis: i64) -> (r: Self)
        ensures
            r.millis == millis,
    {
        Self { millis }
    }

    pub fn to_millis(&self) -> (r: i64)
        ensures
            r == self.millis,
    {
        self.millis
    }

    /// The current time; nothing is promised of its value.
    pub fn now() -> Self {
        Self { millis: crate::ext::utc_now_millis() }
    }
}

/// A URI, as text.
#[derive(Debug)]
pub struct URI(String);

impl Clone for URI {
    fn clone(&self) -> (r: Self)
        ensures
            r@ == self@,
    {
        URI(self.0.clone())
    }
}

/// A copy of an optional URI.
pub fn clone_opt_uri(o: &Option<URI>) -> (r: Option<URI>)
    ensures
        match (r, *o) {
            (Some(a), Some(b)) => a@ == b@,
            (None, None) => true,
            _ => false,
        },
{
    match o {
        Some(u) => Some(u.clone()),
        None => None,
    }
}

impl View for URI {
    type V = Seq<char>;

    closed spec fn view(&self) -> Seq<char> {
        self.0@
    }
}

impl URI {
    /// Every string is accepted as a URI.
    pub fn from_str(uri: String) -> (r: Option<Self>)
        ensures
            r matches Some(u) && u@ == uri@,
    {
        Some(Self(uri))
    }

    pub fn to_str(&self) -> (r: &str)
        ensures
            r@ == self@,
    {
        self.0.as_str()
    }
}

} // verus!

verus! {

/// `r` refers to the value that `o` holds, or both are empty.
pub open spec fn same_opt<T>(r: Option<&T>, o: Option<T>) -> bool {
    match (r, o) {
        (Some(a), Some(b)) => *a == b,
        (None, None) => true,
        _ => false,
    }
}

} // verus!
