//! How a post's privacy is written as ActivityPub addressing (`to`/`cc`),
//! and how it is read back from a received note or announce.
use crate::models::{PostPrivacy, PUBLIC};
use crate::text::{contains_string, ends_with, has_suffix, views};
use vstd::prelude::*;

verus! {

/// Some address in `to` is a followers collection (ends with `/followers`).
pub open spec fn addresses_followers(to: Seq<Seq<char>>) -> bool {
    exists|i: int| 0 <= i < to.len() && has_suffix(#[trigger] to[i], "/followers"@)
}

/// The privacy a note's addressing expresses: addressed to everyone means
/// public, copied to everyone means unlisted, addressed to a followers
/// collection means followers only, and anything else is private.
pub open spec fn note_privacy(to: Seq<Seq<char>>, cc: Seq<Seq<char>>) -> PostPrivacy {
    if to.contains(PUBLIC@) {
        PostPrivacy::Public
    } else if cc.contains(PUBLIC@) {
        PostPrivacy::Unlisted
    } else if addresses_followers(to) {
        PostPrivacy::Followers
    } else {
        PostPrivacy::Private
    }
}

/// A note addressed to everyone is public, whatever else it is addressed to.
pub proof fn lemma_public_note(to: Seq<Seq<char>>, cc: Seq<Seq<char>>)
    requires
        to.contains(PUBLIC@),
    ensures
        note_privacy(to, cc) == PostPrivacy::Public,
{
}

/// A note copied to everyone but not addressed to everyone is unlisted.
pub proof fn lemma_unlisted_note(to: Seq<Seq<char>>, cc: Seq<Seq<char>>)
    requires
        !to.contains(PUBLIC@),
        cc.contains(PUBLIC@),
    ensures
        note_privacy(to, cc) == PostPrivacy::Unlisted,
{
}

/// Who a note is copied to matters only through whether it is copied to
/// everyone: two notes with the same `to` whose copies both leave everyone
/// out have the same privacy.
pub proof fn lemma_cc_matters_only_for_public(to: Seq<Seq<char>>, cc1: Seq<Seq<char>>, cc2: Seq<Seq<char>>)
    requires
        !cc1.contains(PUBLIC@),
        !cc2.contains(PUBLIC@),
    ensures
        note_privacy(to, cc1) == note_privacy(to, cc2),
{
}

/// A note that is neither addressed nor copied to everyone is followers-only
/// exactly when one of its `to` addresses ends with `/followers`, and
/// private otherwise.
pub proof fn lemma_restricted_note(to: Seq<Seq<char>>, cc: Seq<Seq<char>>)
    requires
        !to.contains(PUBLIC@),
        !cc.contains(PUBLIC@),
    ensures
        note_privacy(to, cc) == PostPrivacy::Followers <==> exists|i: int|
            0 <= i < to.len() && has_suffix(#[trigger] to[i], "/followers"@),
        note_privacy(to, cc) != PostPrivacy::Followers ==> note_privacy(to, cc) == PostPrivacy::Private,
{
}

/// The privacy of a repost: only public and unlisted announces are accepted.
pub open spec fn announce_privacy(to: Seq<Seq<char>>, cc: Seq<Seq<char>>) -> Option<PostPrivacy> {
    if to.contains(PUBLIC@) {
        Some(PostPrivacy::Public)
    } else if cc.contains(PUBLIC@) {
        Some(PostPrivacy::Unlisted)
    } else {
        None
    }
}

/// Whether some address in `to` ends with `/followers`.
fn any_followers_collection(to: &Vec<String>) -> (r: bool)
    ensures
        r == addresses_followers(views(to@)),
{
    let mut i: usize = 0;
    while i < to.len()
        invariant
            i <= to@.len(),
            forall|j: int| 0 <= j < i ==> !has_suffix(#[trigger] views(to@)[j], "/followers"@),
        decreases to.len() - i,
    {
        if ends_with(to[i].as_str(), "/followers") {
            assert(has_suffix(views(to@)[i as int], "/followers"@));
            return true;
        }
        assert(views(to@)[i as int] == to@[i as int]@);
        i = i + 1;
    }
    false
}

/// The privacy that a received note's addressing expresses.
pub fn classify_privacy(to: &Vec<String>, cc: &Vec<String>) -> (r: PostPrivacy)
    ensures
        r == note_privacy(views(to@), views(cc@)),
        views(to@).contains(PUBLIC@) ==> r == PostPrivacy::Public,
        !views(to@).contains(PUBLIC@) && views(cc@).contains(PUBLIC@) ==> r == PostPrivacy::Unlisted,
        !views(to@).contains(PUBLIC@) && !views(cc@).contains(PUBLIC@) ==> (r == PostPrivacy::Followers
            <==> exists|i: int| 0 <= i < to@.len() && has_suffix(#[trigger] views(to@)[i], "/followers"@)),
{
    if contains_string(to, PUBLIC) {
        PostPrivacy::Public
    } else if contains_string(cc, PUBLIC) {
        PostPrivacy::Unlisted
    } else if any_followers_collection(to) {
        PostPrivacy::Followers
    } else {
        PostPrivacy::Private
    }
}

/// The privacy of a received announce; `None` when it is neither public nor
/// unlisted, which is refused.
pub fn classify_announce_privacy(to: &Vec<String>, cc: &Vec<String>) -> (r: Option<PostPrivacy>)
    ensures
        r == announce_privacy(views(to@), views(cc@)),
{
    if contains_string(to, PUBLIC) {
        Some(PostPrivacy::Public)
    } else if contains_string(cc, PUBLIC) {
        Some(PostPrivacy::Unlisted)
    } else {
        None
    }
}

/// The `to` and `cc` addresses of a post with the given privacy, by the
/// poster whose followers collection is `followers`: public posts go to
/// everyone and are copied to followers; unlisted posts copy both;
/// followers-only posts go to followers; private posts are addressed to
/// no collection.
pub open spec fn addressing(privacy: PostPrivacy, followers: Seq<char>) -> (Seq<Seq<char>>, Seq<
    Seq<char>,
>) {
    match privacy {
        PostPrivacy::Public => (seq![PUBLIC@], seq![followers]),
        PostPrivacy::Unlisted => (Seq::empty(), seq![PUBLIC@, followers]),
        PostPrivacy::Followers => (seq![followers], Seq::empty()),
        PostPrivacy::Private => (Seq::empty(), Seq::empty()),
    }
}

/// Who a post is addressed to: everyone is in `to` exactly for a public post
/// and in `cc` exactly for an unlisted post; the poster's followers are
/// named exactly for a post that is not private (in `to` for a
/// followers-only post); a private post names no one.
pub proof fn lemma_addressing_audiences(privacy: PostPrivacy, followers: Seq<char>)
    requires
        followers != PUBLIC@,
    ensures
        addressing(privacy, followers).0.contains(PUBLIC@) <==> privacy == PostPrivacy::Public,
        addressing(privacy, followers).1.contains(PUBLIC@) <==> privacy == PostPrivacy::Unlisted,
        (addressing(privacy, followers).0.contains(followers) || addressing(privacy, followers).1.contains(
            followers,
        )) <==> privacy != PostPrivacy::Private,
        privacy == PostPrivacy::Followers ==> addressing(privacy, followers).0.contains(followers),
        privacy == PostPrivacy::Private ==> addressing(privacy, followers).0.len() == 0
            && addressing(privacy, followers).1.len() == 0,
{
    let (to, cc) = addressing(privacy, followers);
    match privacy {
        PostPrivacy::Public => {
            assert(to[0] == PUBLIC@);
            assert(cc[0] == followers);
            assert(!cc.contains(PUBLIC@)) by {
                if cc.contains(PUBLIC@) {
                    let i = choose|i: int| 0 <= i < cc.len() && cc[i] == PUBLIC@;
                    assert(i == 0);
                }
            }
        },
        PostPrivacy::Unlisted => {
            assert(cc[0] == PUBLIC@);
            assert(cc[1] == followers);
        },
        PostPrivacy::Followers => {
            assert(to[0] == followers);
            assert(!to.contains(PUBLIC@)) by {
                if to.contains(PUBLIC@) {
                    let i = choose|i: int| 0 <= i < to.len() && to[i] == PUBLIC@;
                    assert(i == 0);
                }
            }
        },
        PostPrivacy::Private => {},
    }
}

/// A post's privacy survives being written as addressing and read back, for
/// any followers collection (whose URI ends with `/followers`).
pub proof fn lemma_addressing_roundtrip(privacy: PostPrivacy, followers: Seq<char>)
    requires
        has_suffix(followers, "/followers"@),
    ensures
        note_privacy(addressing(privacy, followers).0, addressing(privacy, followers).1)
            == privacy,
{
    reveal_strlit("https://www.w3.org/ns/activitystreams#Public");
    reveal_strlit("/followers");
    let p = PUBLIC@;
    assert(followers != p) by {
        let k = followers.len() - 1;
        assert(followers[k] == 's') by {
            assert(followers.subrange(followers.len() - 10, followers.len() as int)[9] == 's');
        }
        if followers == p {
            assert(p[p.len() - 1] == 'c');
        }
    }
    let (to, cc) = addressing(privacy, followers);
    match privacy {
        PostPrivacy::Public => {
            assert(to[0] == p);
        },
        PostPrivacy::Unlisted => {
            assert(cc[0] == p);
            assert(!to.contains(p));
        },
        PostPrivacy::Followers => {
            assert(!to.contains(p));
            assert(!cc.contains(p));
            assert(has_suffix(to[0], "/followers"@));
        },
        PostPrivacy::Private => {
            assert(!to.contains(p));
            assert(!cc.contains(p));
        },
    }
}

/// An announce is accepted only as public or unlisted: public when addressed
/// to everyone, unlisted when only copied to everyone, refused otherwise.
pub proof fn lemma_announce_privacy(to: Seq<Seq<char>>, cc: Seq<Seq<char>>)
    ensures
        to.contains(PUBLIC@) ==> announce_privacy(to, cc) == Some(PostPrivacy::Public),
        !to.contains(PUBLIC@) && cc.contains(PUBLIC@) ==> announce_privacy(to, cc) == Some(
            PostPrivacy::Unlisted,
        ),
        !to.contains(PUBLIC@) && !cc.contains(PUBLIC@) ==> announce_privacy(to, cc) is None,
{
}

} // verus!
