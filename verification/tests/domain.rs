use lightpub::repository::post_params_from_row;
use lightpub::domain::factory::auth::{AuthTokenFactory, DefaultAuthTokenFactory};
use lightpub::domain::factory::follow::{DefaultUserFollowFactory, UserFollowFactory};
use lightpub::domain::factory::post::{DefaultPostFactory, PostCreationParams, PostFactory};
use lightpub::domain::model::ctx::AppContext;
use lightpub::domain::model::follow::{FollowId, UserFollow};
use lightpub::domain::model::post::{
    Post, PostContent, PostId, PostPrivacy, PostReaction, PostReactionName,
};
use lightpub::domain::model::user::{Nickname, User, UserId, Username};
use lightpub::domain::model::{UtcDateTime, URI};
use lightpub::domain::service::id::{IDGenerationService, V7Generator};
use lightpub::domain::service::user::UserService;

#[test]
fn username_accepts_valid_names() {
    assert!(Username::check("admin"));
    assert!(Username::check("user_1-a"));
    assert!(Username::check("abc"));
    assert!(Username::check("abcdefghijklmnop"));
    assert_eq!(Username::from_str("testuser").unwrap().as_str(), "testuser");
}

#[test]
fn auth_bad_username_kanji() {
    assert!(Username::from_str("kanji感じ").is_none());
}

#[test]
fn auth_bad_username_too_short() {
    assert!(Username::from_str("ab").is_none());
    assert!(Username::from_str("").is_none());
}

#[test]
fn auth_bad_username_too_long() {
    assert!(Username::from_str("123456789abcdefgh").is_none());
}

#[test]
fn auth_bad_username_special_chars() {
    assert!(Username::from_str("special!char@foobar").is_none());
}

#[test]
fn username_separators_rules() {
    assert!(!Username::check("-abc"));
    assert!(!Username::check("_abc"));
    assert!(!Username::check("ab--c"));
    assert!(!Username::check("ab_-c"));
    assert!(Username::check("a-b_c"));
}

#[test]
fn password_set_then_validated() {
    let mut user = User::new(
        UserId::from_uuid(1),
        Username::from_str("admin").unwrap(),
        Nickname::from_str("admin dayo").unwrap(),
        UtcDateTime::from_millis(0),
    );
    assert!(!user.validate_password("1234Abcd!"));
    assert!(user.set_password("1234Abcd!"));
    assert!(user.validate_password("1234Abcd!"));
    assert!(!user.validate_password("1234Abcd"));
}

#[test]
fn user_ids_parse_uuid_text() {
    let id = UserId::from_str("0190a7f6-1c4b-7d8e-9f00-112233445566").unwrap();
    assert_eq!(id.id(), 0x0190a7f61c4b7d8e9f00112233445566u128);
    assert!(UserId::from_str("not-a-uuid").is_none());
    let post = PostId::from_str("0190a7f61c4b7d8e9f00112233445566").unwrap();
    assert_eq!(post.to_string(), "0190a7f61c4b7d8e9f00112233445566");
}

#[test]
fn follows_are_equal_only_when_stored_under_same_id() {
    let now = UtcDateTime::from_millis(5);
    let mut a = UserFollow::new(UserId(1), UserId(2), now);
    let mut b = UserFollow::new(UserId(1), UserId(2), now);
    assert!(a != b);
    assert!(a != a);
    a.set_id(FollowId::from_int(7));
    b.set_id(FollowId::from_int(7));
    assert!(a == b);
    b.set_id(FollowId::from_int(8));
    assert!(a != b);
    assert_eq!(a.id(), Some(&FollowId(7)));
}

#[test]
fn follow_factory_makes_unstored_follow() {
    let mut f = DefaultUserFollowFactory::new();
    let follow = f.create(UserId(3), UserId(4));
    assert_eq!(follow.id(), None);
    assert_eq!(*follow.follower(), UserId(3));
    assert_eq!(*follow.followee(), UserId(4));
}

#[test]
fn auth_token_factory_makes_64_alphanumerics() {
    let mut f = DefaultAuthTokenFactory::new();
    let t = f.create(UserId(9));
    assert_eq!(t.token().len(), 64);
    assert!(t.token().chars().all(|c| c.is_ascii_alphanumeric()));
    assert_eq!(t.user_id(), UserId(9));
}

fn params(reply_to: Option<PostId>, repost_of: Option<PostId>, quote_of: Option<PostId>) -> PostCreationParams {
    PostCreationParams {
        id: Some(PostId(42)),
        uri: None,
        content: Some(PostContent::from_string("hello".to_string())),
        author: UserId(1),
        privacy: PostPrivacy::Unlisted,
        created_at: UtcDateTime::from_millis(10),
        reply_to,
        repost_of,
        quote_of,
        mentioned_users: vec![UserId(2)],
        reply_count: 1,
        repost_count: 2,
        quote_count: 3,
        reactions: vec![PostReaction::new(PostReactionName::new("👍".to_string()), 4)],
    }
}

#[test]
fn post_factory_builds_each_kind() {
    let mut f = DefaultPostFactory::new(V7Generator {});
    let reply = f.create(&params(Some(PostId(7)), None, None));
    assert_eq!(reply.id(), PostId(42));
    assert_eq!(reply.reply_to().unwrap().id(), PostId(7));
    assert_eq!(reply.content().unwrap().to_str(), "hello");
    assert_eq!(reply.privacy(), PostPrivacy::Unlisted);
    assert!(reply.repost_of().is_none());

    let repost = f.create(&params(None, Some(PostId(8)), None));
    assert!(matches!(repost, Post::Repost(_)));
    assert_eq!(repost.repost_of().unwrap().id(), PostId(8));
    assert!(repost.content().is_none());

    let quote = f.create(&params(None, None, Some(PostId(9))));
    assert!(quote.quote_of().is_some());
    assert!(quote.reply_to().is_none());
    assert_eq!(quote.author_id(), UserId(1));
}

#[test]
fn user_service_builds_local_uris() {
    let ctx = AppContext::new(URI::from_str("https://example.com".to_string()).unwrap());
    let user = User::new(
        UserId::from_uuid(0x0190a7f61c4b7d8e9f00112233445566),
        Username::from_str("admin").unwrap(),
        Nickname::from_str("admin").unwrap(),
        UtcDateTime::from_millis(0),
    );
    let svc = UserService {};
    assert_eq!(svc.get_uri(&user, &ctx).to_str(), "https://example.com/user/0190a7f6-1c4b-7d8e-9f00-112233445566");
    assert_eq!(svc.get_inbox(&user, &ctx).to_str(), "https://example.com/user/0190a7f6-1c4b-7d8e-9f00-112233445566/inbox");
    assert_eq!(svc.get_outbox(&user, &ctx).to_str(), "https://example.com/user/0190a7f6-1c4b-7d8e-9f00-112233445566/outbox");
    assert_eq!(svc.get_shared_inbox(&user, &ctx).to_str(), "https://example.com/inbox");
}

#[test]
fn v7_generator_hands_out_version_7_ids() {
    let mut g = V7Generator {};
    let p = g.generate_post_id().id();
    let u = g.generate_user_id().id();
    for v in [p, u] {
        assert_eq!((v >> 76) & 0xf, 7);
        assert_eq!((v >> 62) & 0x3, 2);
    }
}

#[test]
fn post_factory_builds_plain_posts() {
    let mut f = DefaultPostFactory::new(V7Generator {});
    let plain = f.create(&params(None, None, None));
    assert!(matches!(plain, Post::Normal(_)));
    assert!(plain.reply_to().is_none());
    assert_eq!(plain.content().unwrap().to_str(), "hello");
    let mut fresh = params(None, None, None);
    fresh.id = None;
    let p = f.create(&fresh);
    assert_eq!((p.id().id() >> 76) & 0xf, 7);
}

#[test]
fn stored_rows_become_post_parameters() {
    let mut f = DefaultPostFactory::new(V7Generator {});
    let row = |content: Option<&str>, reply: Option<u128>, repost: Option<u128>| {
        post_params_from_row(
            5,
            Some("https://b.example/notes/5".to_string()),
            content.map(|s| s.to_string()),
            1,
            PostPrivacy::Public,
            UtcDateTime::from_millis(3),
            reply,
            repost,
        )
        .unwrap()
    };
    let reply = f.create(&row(Some("r"), Some(7), None));
    assert_eq!(reply.reply_to().unwrap().id(), PostId(7));
    assert_eq!(reply.uri().unwrap().to_str(), "https://b.example/notes/5");
    let quote = f.create(&row(Some("q"), None, Some(8)));
    assert!(matches!(quote, Post::Quote(_)));
    let repost = f.create(&row(None, None, Some(8)));
    assert!(matches!(repost, Post::Repost(_)));
    let plain = f.create(&row(Some("p"), None, None));
    assert!(matches!(plain, Post::Normal(_)));
    assert_eq!(plain.id(), PostId(5));
    assert_eq!(plain.author_id(), UserId(1));
}
