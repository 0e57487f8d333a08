use lightpub::models::{post_privacy_from_db, post_privacy_to_db, process_public_key_pem, PostPrivacy, PUBLIC};
use lightpub::policy::{
    check_delete, check_reply, check_repost, check_visibility, classify_post_request, collect_hashtags,
    resolve_visibility, should_announce_interaction, unique_mentions, PostCreateError, PostDeleteError,
    PostKind, VisibilityRequirement,
};
use lightpub::privacy::{classify_announce_privacy, classify_privacy};
use lightpub::policy::{check_not_stored, delivers_created_post, poster_lookup_error};
use lightpub::services::{MiscFailure, ServiceError, UserFindError};

fn strs(v: &[&str]) -> Vec<String> {
    v.iter().map(|s| s.to_string()).collect()
}

fn viewer_sees(is_poster: bool, privacy: PostPrivacy, follows: bool, mentioned: bool) -> bool {
    resolve_visibility(check_visibility(is_poster, privacy, false), follows, mentioned)
}

#[test]
fn others_see_public_and_unlisted_posts() {
    assert!(viewer_sees(false, PostPrivacy::Public, false, false));
    assert!(viewer_sees(false, PostPrivacy::Unlisted, false, false));
}

#[test]
fn others_follower_and_private_posts_are_hidden() {
    // a stranger gets 404 for another user's follower-only or private post
    assert!(!viewer_sees(false, PostPrivacy::Followers, false, false));
    assert!(!viewer_sees(false, PostPrivacy::Private, false, false));
}

#[test]
fn followers_and_mentioned_users_see_restricted_posts() {
    assert_eq!(check_visibility(false, PostPrivacy::Followers, false), VisibilityRequirement::IfFollower);
    assert_eq!(check_visibility(false, PostPrivacy::Private, false), VisibilityRequirement::IfMentioned);
    assert!(viewer_sees(false, PostPrivacy::Followers, true, false));
    assert!(!viewer_sees(false, PostPrivacy::Private, true, false));
    assert!(viewer_sees(false, PostPrivacy::Private, false, true));
}

#[test]
fn posters_see_their_own_posts() {
    for p in [PostPrivacy::Public, PostPrivacy::Unlisted, PostPrivacy::Followers, PostPrivacy::Private] {
        assert!(viewer_sees(true, p, false, false));
    }
}

#[test]
fn repost_mode_hides_restricted_posts_even_from_poster() {
    assert_eq!(check_visibility(true, PostPrivacy::Followers, true), VisibilityRequirement::Hidden);
    assert_eq!(check_visibility(true, PostPrivacy::Private, true), VisibilityRequirement::Hidden);
    assert_eq!(check_visibility(false, PostPrivacy::Public, true), VisibilityRequirement::Visible);
}

#[test]
fn repost_of_public_with_public_privacy_succeeds() {
    assert_eq!(check_repost(true, true, PostPrivacy::Public, false), Ok(()));
    assert_eq!(check_repost(true, true, PostPrivacy::Unlisted, false), Ok(()));
}

#[test]
fn repost_of_hidden_target_is_not_found() {
    let visible = resolve_visibility(check_visibility(true, PostPrivacy::Followers, true), true, true);
    let r = check_repost(visible, true, PostPrivacy::Public, false);
    assert_eq!(r, Err(PostCreateError::RepostOfNotFound));
    assert_eq!(PostCreateError::RepostOfNotFound.status_code(), 404);
}

#[test]
fn repost_with_follower_or_private_privacy_is_bad_request() {
    let r = check_repost(true, true, PostPrivacy::Followers, false);
    assert_eq!(r, Err(PostCreateError::DisallowedPrivacyForRepost));
    assert_eq!(check_repost(true, true, PostPrivacy::Private, false), Err(PostCreateError::DisallowedPrivacyForRepost));
    assert_eq!(PostCreateError::DisallowedPrivacyForRepost.status_code(), 400);
}

#[test]
fn quote_may_be_private_but_not_of_a_repost() {
    assert_eq!(check_repost(true, false, PostPrivacy::Private, false), Ok(()));
    assert_eq!(check_repost(true, false, PostPrivacy::Public, true), Err(PostCreateError::NestedRepost));
    assert_eq!(PostCreateError::NestedRepost.status_code(), 400);
}

#[test]
fn replies_follow_target_visibility() {
    assert_eq!(check_reply(true, false), Ok(()));
    assert_eq!(check_reply(false, false), Err(PostCreateError::ReplyToNotFound));
    assert_eq!(check_reply(true, true), Err(PostCreateError::NestedRepost));
    assert_eq!(PostCreateError::ReplyToNotFound.status_code(), 404);
    assert_eq!(PostCreateError::PosterNotFound.status_code(), 500);
    assert_eq!(PostCreateError::AlreadyExists.status_code(), 500);
    assert_eq!(PostCreateError::PostNotFound.status_code(), 404);
}

#[test]
fn post_request_kinds() {
    assert_eq!(classify_post_request(false, false, true), Ok(PostKind::Normal));
    assert_eq!(classify_post_request(true, false, false), Ok(PostKind::Repost));
    assert_eq!(classify_post_request(true, false, true), Ok(PostKind::Quote));
    assert_eq!(classify_post_request(false, true, true), Ok(PostKind::Reply));
    assert_eq!(classify_post_request(false, false, false), Err("content is null".to_string()));
    assert_eq!(classify_post_request(false, true, false), Err("content is null".to_string()));
    assert_eq!(
        classify_post_request(true, true, true),
        Err("repost_of_id and reply_to_id cannot be set at the same time".to_string())
    );
}

#[test]
fn only_the_poster_may_delete() {
    assert_eq!(check_delete(Some(7), Some(7)), Ok(()));
    assert_eq!(check_delete(Some(8), Some(7)), Err(PostDeleteError::Unauthorized));
    assert_eq!(check_delete(None, Some(7)), Ok(()));
}

#[test]
fn deleting_a_missing_post_is_not_found() {
    assert_eq!(check_delete(Some(7), None), Err(PostDeleteError::PostNotFound));
    assert_eq!(check_delete(None, None), Err(PostDeleteError::PostNotFound));
}

#[test]
fn interactions_are_announced_only_for_local_changes() {
    assert!(should_announce_interaction(true, false, true));
    assert!(!should_announce_interaction(false, false, true));
    assert!(!should_announce_interaction(true, true, true));
    assert!(!should_announce_interaction(true, false, false));
}

#[test]
fn mentions_are_deduplicated_in_order() {
    let r = unique_mentions(&vec![Some(3), None, Some(1), Some(3), None, Some(2), Some(1)]);
    assert_eq!(r, vec![3, 1, 2]);
    assert!(unique_mentions(&vec![None, None]).is_empty());
}

#[test]
fn hashtags_are_merged_once() {
    let r = collect_hashtags(&strs(&["rust", "verus", "rust"]), &strs(&["verus", "fedi"]));
    assert_eq!(r, strs(&["rust", "verus", "fedi"]));
}

#[test]
fn note_privacy_from_addressing() {
    let followers = "https://example.com/user/a/followers";
    assert_eq!(classify_privacy(&strs(&[PUBLIC]), &strs(&[followers])), PostPrivacy::Public);
    assert_eq!(classify_privacy(&vec![], &strs(&[PUBLIC, followers])), PostPrivacy::Unlisted);
    assert_eq!(classify_privacy(&strs(&[followers]), &vec![]), PostPrivacy::Followers);
    assert_eq!(classify_privacy(&strs(&["https://example.com/user/b"]), &vec![]), PostPrivacy::Private);
    assert_eq!(classify_privacy(&vec![], &vec![]), PostPrivacy::Private);
}

#[test]
fn announce_privacy_refuses_restricted() {
    assert_eq!(classify_announce_privacy(&strs(&[PUBLIC]), &vec![]), Some(PostPrivacy::Public));
    assert_eq!(classify_announce_privacy(&vec![], &strs(&[PUBLIC])), Some(PostPrivacy::Unlisted));
    assert_eq!(classify_announce_privacy(&strs(&["https://example.com/user/a/followers"]), &vec![]), None);
}

#[test]
fn privacy_storage_names_round_trip() {
    for p in [PostPrivacy::Public, PostPrivacy::Unlisted, PostPrivacy::Followers, PostPrivacy::Private] {
        assert_eq!(post_privacy_from_db(post_privacy_to_db(p)), p);
        assert_eq!(p.to_db(), post_privacy_to_db(p));
    }
    assert_eq!(post_privacy_to_db(PostPrivacy::Followers), "follower");
}

#[test]
fn request_privacy_names() {
    assert_eq!(PostPrivacy::deserialize("public"), Some(PostPrivacy::Public));
    assert_eq!(PostPrivacy::deserialize("unlisted"), Some(PostPrivacy::Unlisted));
    assert_eq!(PostPrivacy::deserialize("followers"), Some(PostPrivacy::Followers));
    assert_eq!(PostPrivacy::deserialize("private"), Some(PostPrivacy::Private));
    assert_eq!(PostPrivacy::deserialize("follower"), Some(PostPrivacy::Followers));
    assert_eq!(PostPrivacy::deserialize("secret"), None);
    for p in [PostPrivacy::Public, PostPrivacy::Unlisted, PostPrivacy::Followers, PostPrivacy::Private] {
        assert_eq!(PostPrivacy::deserialize(&p.to_db()), Some(p));
    }
}

#[test]
fn public_key_pem_ends_with_one_newline() {
    assert_eq!(process_public_key_pem("KEY\n\n\n"), "KEY\n");
    assert_eq!(process_public_key_pem("KEY"), "KEY\n");
    assert_eq!(process_public_key_pem(&process_public_key_pem("KEY\n\n")), "KEY\n");
}

fn visible_posts(is_poster: bool, follows: bool, mentioned: bool) -> Vec<&'static str> {
    let posts = [
        ("private content @user4", PostPrivacy::Private),
        ("follower content", PostPrivacy::Followers),
        ("unlisted content", PostPrivacy::Unlisted),
        ("public content", PostPrivacy::Public),
    ];
    posts
        .iter()
        .filter(|(_, p)| viewer_sees(is_poster, *p, follows, mentioned))
        .map(|(c, _)| *c)
        .collect()
}

#[test]
fn own_post_list_shows_everything() {
    assert_eq!(
        visible_posts(true, false, false),
        vec!["private content @user4", "follower content", "unlisted content", "public content"]
    );
}

#[test]
fn others_see_only_open_posts_in_a_list() {
    assert_eq!(visible_posts(false, false, false), vec!["unlisted content", "public content"]);
}

#[test]
fn followers_see_follower_posts_in_a_list() {
    assert_eq!(visible_posts(false, true, false), vec!["follower content", "unlisted content", "public content"]);
}

#[test]
fn mentioned_users_see_private_posts_in_a_list() {
    assert_eq!(visible_posts(false, false, true), vec!["private content @user4", "unlisted content", "public content"]);
}

#[test]
fn post_creation_steps() {
    assert_eq!(check_not_stored(true, true), Err(PostCreateError::AlreadyExists));
    assert_eq!(check_not_stored(true, false), Ok(()));
    assert_eq!(check_not_stored(false, true), Ok(()));
    assert!(matches!(
        poster_lookup_error(ServiceError::SpecificError(UserFindError::RemoteError)),
        ServiceError::SpecificError(PostCreateError::PosterNotFound)
    ));
    let m = MiscFailure { message: "busy".to_string(), status: 503 };
    assert!(matches!(poster_lookup_error(ServiceError::MiscError(m)), ServiceError::MiscError(ref f) if f.status == 503));
    assert!(delivers_created_post(false, true));
    assert!(!delivers_created_post(true, true));
    assert!(!delivers_created_post(false, false));
}
