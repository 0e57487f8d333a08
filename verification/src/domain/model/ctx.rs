use super::URI;
use vstd::prelude::*;

verus! {

/// What the domain services need to know of the running server.
pub struct AppContext {
    base_url: URI,
}

impl AppContext {
    pub closed spec fn spec_base_url(&self) -> Seq<char> {
        self.base_url@
    }

    pub fn new(base_url: URI) -> (r: Self)
        ensures
            r.spec_base_url() == base_url@,
    {
        Self { base_url }
    }

    pub fn base_url(&self) -> (r: &URI)
        ensures
            r@ == self.spec_base_url(),
    {
        &self.base_url
    }
}

} // verus!
