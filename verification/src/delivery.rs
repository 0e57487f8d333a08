//! Choosing the inboxes a local post is delivered to.
use crate::models::User;
use crate::services::InboxPair;
use crate::text::{contains_string, views};
use crate::user_spec::UserSpecifier;
use vstd::prelude::*;

verus! {

/// Who a post is delivered to: the followers of a user, or a mentioned user.
#[derive(Debug, Clone)]
pub enum TargetedUser {
    FollowerOf(UserSpecifier),
    Mentioned(UserSpecifier),
}

/// Where a user is reached: its server's shared inbox if it has one,
/// otherwise its own inbox; nowhere if it has neither.
pub open spec fn delivery_inbox(p: InboxPair) -> Option<Seq<char>> {
    match p.shared_inbox {
        Some(s) => Some(s@),
        None => match p.inbox {
            Some(i) => Some(i@),
            None => None,
        },
    }
}

/// `s` is where one of the recipients is reached.
pub open spec fn reaches(pairs: Seq<InboxPair>, s: Seq<char>) -> bool {
    exists|i: int| 0 <= i < pairs.len() && delivery_inbox(#[trigger] pairs[i]) == Some(s)
}

/// The inboxes that reach all the recipients, each once, in the order the
/// recipients come.
pub fn collect_inboxes(pairs: &Vec<InboxPair>) -> (r: Vec<String>)
    ensures
        views(r@).no_duplicates(),
        forall|s: Seq<char>| views(r@).contains(s) <==> reaches(pairs@, s),
{
    let mut out: Vec<String> = Vec::new();
    let mut i: usize = 0;
    while i < pairs.len()
        invariant
            i <= pairs@.len(),
            views(out@).no_duplicates(),
            forall|s: Seq<char>|
                views(out@).contains(s) <==> reaches(pairs@.subrange(0, i as int), s),
        decreases pairs.len() - i,
    {
        let ghost pre = pairs@.subrange(0, i as int);
        let ghost post = pairs@.subrange(0, i + 1);
        let chosen: Option<&String> = match &pairs[i].shared_inbox {
            Some(s) => Some(s),
            None => match &pairs[i].inbox {
                Some(x) => Some(x),
                None => None,
            },
        };
        assert(post[i as int] == pairs@[i as int]);
        match chosen {
            Some(s) => {
                assert(delivery_inbox(pairs@[i as int]) == Some(s@));
                let ghost before = out@;
                if !contains_string(&out, s.as_str()) {
                    out.push(s.clone());
                    assert(views(out@) =~= views(before).push(s@));
                    assert(views(out@).no_duplicates());
                }
                assert forall|t: Seq<char>| views(out@).contains(t) <==> reaches(post, t) by {
                    if t == s@ {
                        assert(delivery_inbox(post[i as int]) == Some(t));
                        assert(reaches(post, t));
                        if views(out@) != views(before) {
                            assert(views(out@)[views(out@).len() - 1] == t);
                        }
                    } else {
                        assert(views(out@).contains(t) <==> views(before).contains(t)) by {
                            if views(out@) != views(before) {
                                if views(out@).contains(t) {
                                    let k = choose|k: int| 0 <= k < views(out@).len() && views(out@)[k] == t;
                                    assert(views(before)[k] == t);
                                }
                                if views(before).contains(t) {
                                    let k = choose|k: int| 0 <= k < views(before).len() && views(before)[k] == t;
                                    assert(views(out@)[k] == t);
                                }
                            }
                        }
                        if reaches(post, t) {
                            let k = choose|k: int| 0 <= k < post.len() && delivery_inbox(#[trigger] post[k]) == Some(t);
                            assert(k < i);
                            assert(pre[k] == post[k]);
                            assert(reaches(pre, t));
                        }
                        if reaches(pre, t) {
                            let k = choose|k: int| 0 <= k < pre.len() && delivery_inbox(#[trigger] pre[k]) == Some(t);
                            assert(post[k] == pre[k]);
                        }
                    }
                }
            },
            None => {
                assert(delivery_inbox(pairs@[i as int]) is None);
                assert forall|t: Seq<char>| views(out@).contains(t) <==> reaches(post, t) by {
                    if reaches(post, t) {
                        let k = choose|k: int| 0 <= k < post.len() && delivery_inbox(#[trigger] post[k]) == Some(t);
                        assert(k < i);
                        assert(pre[k] == post[k]);
                    }
                    if reaches(pre, t) {
                        let k = choose|k: int| 0 <= k < pre.len() && delivery_inbox(#[trigger] pre[k]) == Some(t);
                        assert(post[k] == pre[k]);
                    }
                }
            },
        }
        i = i + 1;
    }
    assert(pairs@.subrange(0, pairs@.len() as int) =~= pairs@);
    out
}

/// The inboxes of a mentioned user, when that user is remote; a local user
/// needs no delivery.
pub fn mentioned_user_inboxes(user: &User) -> (r: Option<InboxPair>)
    ensures
        user.uri is None ==> r is None,
        user.uri is Some ==> (r matches Some(p) && crate::ids::opt_view(p.inbox)
            == crate::ids::opt_view(user.inbox) && crate::ids::opt_view(p.shared_inbox)
            == crate::ids::opt_view(user.shared_inbox)),
{
    if user.uri.is_some() {
        Some(
            InboxPair {
                inbox: crate::models::clone_opt_string(&user.inbox),
                shared_inbox: crate::models::clone_opt_string(&user.shared_inbox),
            },
        )
    } else {
        None
    }
}

/// A user is delivered to at its server's shared inbox when it has one,
/// else at its own inbox; a user with neither is not delivered to.
pub proof fn lemma_shared_inbox_preferred(p: InboxPair)
    ensures
        p.shared_inbox matches Some(s) ==> delivery_inbox(p) == Some(s@),
        p.shared_inbox is None ==> (p.inbox matches Some(i) ==> delivery_inbox(p) == Some(i@)),
        p.shared_inbox is None && p.inbox is None ==> delivery_inbox(p) is None,
{
}

} // verus!
