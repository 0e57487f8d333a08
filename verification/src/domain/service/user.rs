use crate::domain::model::ctx::AppContext;
use crate::domain::model::user::User;
use crate::domain::model::URI;
use crate::ext::{uuid_hyphenated_string, uuid_hyphenated_text};
use crate::text::{concat, concat3, has_prefix, has_suffix};
use vstd::prelude::*;

verus! {

/// The URI of a user's resource: the stored one, or `base/user/<id><suffix>`
/// for a local user.
pub open spec fn user_resource(stored: Option<URI>, base: Seq<char>, id: u128, suffix: Seq<char>) -> Seq<char> {
    match stored {
        Some(u) => u@,
        None => base + "/user/"@ + uuid_hyphenated_text(id) + suffix,
    }
}

/// A user with a stored URI gets that URI back, whatever the base URL, id
/// and suffix; a user without one gets a URI under the base URL's `/user/`
/// path, named by its id and ending with the suffix.
pub proof fn lemma_stored_uris_win(stored: Option<URI>, base: Seq<char>, id: u128, suffix: Seq<char>)
    ensures
        stored matches Some(u) ==> user_resource(stored, base, id, suffix) == u@,
        stored is None ==> has_prefix(user_resource(stored, base, id, suffix), base + "/user/"@)
            && has_suffix(user_resource(stored, base, id, suffix), suffix),
        stored is None ==> user_resource(stored, base, id, suffix) == base + "/user/"@
            + uuid_hyphenated_text(id) + suffix,
{
    if stored is None {
        let r = user_resource(stored, base, id, suffix);
        let p = base + "/user/"@;
        assert(r.subrange(0, p.len() as int) =~= p);
        assert(r.subrange(r.len() - suffix.len(), r.len() as int) =~= suffix);
    }
}

/// Works out the URIs of users.
pub struct UserService {}

impl UserService {
    fn local_uri(&self, user: &User, ctx: &AppContext, suffix: &str) -> (r: URI)
        ensures
            r@ == ctx.spec_base_url() + "/user/"@ + uuid_hyphenated_text(user.id.0) + suffix@,
    {
        let user_id = uuid_hyphenated_string(user.id().0);
        let mut s = concat3(ctx.base_url().to_str(), "/user/", user_id.as_str());
        s.append(suffix);
        match URI::from_str(s) {
            Some(u) => u,
            None => vstd::pervasive::unreached(),
        }
    }

    /// The user's URI.
    pub fn get_uri(&self, user: &User, ctx: &AppContext) -> (r: URI)
        ensures
            r@ == user_resource(user.uri, ctx.spec_base_url(), user.id.0, Seq::empty()),
            user.uri matches Some(u) ==> r@ == u@,
            user.uri is None ==> r@ == ctx.spec_base_url() + "/user/"@ + uuid_hyphenated_text(user.id.0),
    {
        match user.uri() {
            Some(uri) => uri.clone(),
            None => {
                let r = self.local_uri(user, ctx, "");
                proof {
                    reveal_strlit("");
                }
                assert(r@ =~= user_resource(user.uri, ctx.spec_base_url(), user.id.0, Seq::empty()));
                r
            },
        }
    }

    /// The user's inbox.
    pub fn get_inbox(&self, user: &User, ctx: &AppContext) -> (r: URI)
        ensures
            r@ == user_resource(user.inbox, ctx.spec_base_url(), user.id.0, "/inbox"@),
            user.inbox matches Some(u) ==> r@ == u@,
            user.inbox is None ==> r@ == ctx.spec_base_url() + "/user/"@ + uuid_hyphenated_text(user.id.0)
                + "/inbox"@,
    {
        match user.inbox() {
            Some(inbox) => inbox.clone(),
            None => self.local_uri(user, ctx, "/inbox"),
        }
    }

    /// The user's shared inbox: the stored one, or the server's `base/inbox`.
    pub fn get_shared_inbox(&self, user: &User, ctx: &AppContext) -> (r: URI)
        ensures
            r@ == match user.shared_inbox {
                Some(u) => u@,
                None => ctx.spec_base_url() + "/inbox"@,
            },
    {
        match user.shared_inbox() {
            Some(shared_inbox) => shared_inbox.clone(),
            None => {
                let s = concat(ctx.base_url().to_str(), "/inbox");
                match URI::from_str(s) {
                    Some(u) => u,
                    None => vstd::pervasive::unreached(),
                }
            },
        }
    }

    /// The user's outbox.
    pub fn get_outbox(&self, user: &User, ctx: &AppContext) -> (r: URI)
        ensures
            r@ == user_resource(user.outbox, ctx.spec_base_url(), user.id.0, "/outbox"@),
            user.outbox matches Some(u) ==> r@ == u@,
            user.outbox is None ==> r@ == ctx.spec_base_url() + "/user/"@ + uuid_hyphenated_text(user.id.0)
                + "/outbox"@,
    {
        match user.outbox() {
            Some(outbox) => outbox.clone(),
            None => self.local_uri(user, ctx, "/outbox"),
        }
    }
}

} // verus!
