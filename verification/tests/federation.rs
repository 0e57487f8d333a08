use lightpub::apub::{
    with_context, AcceptActivity, Actor, AnnounceActivity, CreatableObject, FollowActivity, HasId, Hashtag, IdOrObject,
    Mention, Note, Person, PublicKey, PublicKeyEnum, TagEnum,
};
use lightpub::config::{Config, DatabaseConfig, DevConfig, FederationConfig, InstanceConfig, QueueConfig};
use lightpub::delivery::{collect_inboxes, mentioned_user_inboxes, TargetedUser};
use lightpub::ids::IDGetterService;
use lightpub::inbox::{
    accepted_follow_request, check_note_author, incoming_follow_request, repost_from_announce,
    FollowRequestSpecifier, IncomingFollowRequest,
};
use lightpub::models::{PostPrivacy, User, PUBLIC};
use lightpub::queue::{BackgroundProcessingError, ResponseErrorPayload, ResponsePayload, TaskTimeoutError};
use lightpub::render::{ApubRendererService, LocalPost, LocalPoster};
use lightpub::services::{
    map_to_local_error, misc_failure_of, FollowError, InboxPair, LocalUserFindError, MiscError, MiscFailure,
    PostCreateRequest, PostSpecifier, ServiceError, UserFindError,
};
use lightpub::user_spec::UserSpecifier;
use lightpub::users::{check_found_local, follow_lookup_error, import_remote_actor, is_fresh, local_lookup, plan_follow, FollowPlan, LocalLookup};
use lightpub::remote::{webfinger_answer, webfinger_url, WebfingerLinkFields};
use lightpub::remote::{follow_request_activity, UserFollowInfo};
use lightpub::queue::worker_answer;

const POSTER: u128 = 0x0190a7f61c4b7d8e9f00112233445566;
const POST: u128 = 0x0190a7f61c4b7d8e9f00aabbccddeeff;

fn config() -> Config {
    Config {
        hostname: "lightpub.example".to_string(),
        http_scheme: "https".to_string(),
        frontend_url: "https://front.example/#".to_string(),
        database: DatabaseConfig { path: "lightpub.db".to_string() },
        queue: QueueConfig { host: "127.0.0.1".to_string(), port: 5672, user: "guest".to_string(), password: "guest".to_string() },
        instance: InstanceConfig { name: "dev".to_string(), description: "dev".to_string(), open_registration: true },
        upload_dir: "uploads".to_string(),
        dev: DevConfig { debug: false, ssl_verify: true },
        federation: FederationConfig { enabled: true },
    }
}

fn renderer() -> ApubRendererService {
    ApubRendererService::new(IDGetterService::new(config()))
}

fn local_post(privacy: PostPrivacy, content: Option<&str>) -> LocalPost {
    LocalPost {
        id: POST,
        content: content.map(|s| s.to_string()),
        poster: LocalPoster { id: POSTER },
        privacy,
        created_at: 1_700_000_000_000,
        repost_of_uri: None,
        reply_to_uri: None,
    }
}

const FOLLOWERS: &str = "https://lightpub.example/user/0190a7f61c4b7d8e9f00112233445566/followers";

fn user(host: Option<&str>, inbox: Option<&str>, shared: Option<&str>) -> User {
    User {
        id: 1,
        username: "bob".to_string(),
        host: host.map(|s| s.to_string()),
        nickname: "Bob".to_string(),
        bio: "hi".to_string(),
        uri: host.map(|h| format!("https://{}/users/bob", h)),
        shared_inbox: shared.map(|s| s.to_string()),
        inbox: inbox.map(|s| s.to_string()),
        outbox: None,
        public_key: None,
        created_at: 0,
    }
}

#[test]
fn public_post_is_rendered_to_everyone_and_followers() {
    let r = renderer().render_local_post(&local_post(PostPrivacy::Public, Some("hello"))).unwrap();
    let create = &r.note_create;
    assert_eq!(create.to, vec![PUBLIC.to_string()]);
    assert_eq!(create.cc, vec![FOLLOWERS.to_string()]);
    assert_eq!(create.id, "https://lightpub.example/post/0190a7f61c4b7d8e9f00aabbccddeeff/activity");
    assert_eq!(create.actor, "https://lightpub.example/user/0190a7f61c4b7d8e9f00112233445566");
    match &create.object {
        IdOrObject::Object(CreatableObject::Note(n)) => {
            assert_eq!(n.id, "https://lightpub.example/post/0190a7f61c4b7d8e9f00aabbccddeeff");
            assert_eq!(n.content, "hello");
            assert_eq!(n.published, 1_700_000_000_000);
        }
        _ => panic!("the object is the note"),
    }
    assert_eq!(r.targeted_users.len(), 1);
    assert!(matches!(&r.targeted_users[0], TargetedUser::FollowerOf(UserSpecifier::ID(i)) if *i == POSTER));
}

#[test]
fn other_privacies_are_addressed_accordingly() {
    let r = renderer().render_local_post(&local_post(PostPrivacy::Unlisted, Some("x"))).unwrap();
    assert!(r.note_create.to.is_empty());
    assert_eq!(r.note_create.cc, vec![PUBLIC.to_string(), FOLLOWERS.to_string()]);
    let r = renderer().render_local_post(&local_post(PostPrivacy::Followers, Some("x"))).unwrap();
    assert_eq!(r.note_create.to, vec![FOLLOWERS.to_string()]);
    assert!(r.note_create.cc.is_empty());
    let r = renderer().render_local_post(&local_post(PostPrivacy::Private, Some("x"))).unwrap();
    assert!(r.note_create.to.is_empty() && r.note_create.cc.is_empty());
    assert!(r.targeted_users.is_empty());
}

#[test]
fn reposts_are_not_rendered_as_notes() {
    assert!(renderer().render_local_post(&local_post(PostPrivacy::Public, None)).is_none());
}

#[test]
fn local_user_is_rendered_as_person() {
    let mut u = user(None, None, None);
    u.id = POSTER;
    u.public_key = Some("PEM\n".to_string());
    let p = renderer().render_user(&u).unwrap();
    let id = "https://lightpub.example/user/0190a7f61c4b7d8e9f00112233445566";
    assert_eq!(p.id, id);
    assert_eq!(p.inbox, format!("{}/inbox", id));
    assert_eq!(p.outbox, format!("{}/outbox", id));
    assert_eq!(p.followers, Some(format!("{}/followers", id)));
    assert_eq!(p.preferred_username, "bob");
    assert_eq!(p.summary, Some("hi".to_string()));
    match &p.public_key {
        PublicKeyEnum::Key(k) => {
            assert_eq!(k.id, format!("{}#main-key", id));
            assert_eq!(k.owner, id);
        }
    }
    let wrapped = with_context(p);
    assert_eq!(wrapped.context, vec!["https://www.w3.org/ns/activitystreams".to_string(), "https://w3id.org/security/v1".to_string()]);
}

#[test]
fn inboxes_prefer_shared_and_are_unique() {
    let pairs = vec![
        InboxPair { inbox: Some("https://a/u1/inbox".to_string()), shared_inbox: Some("https://a/inbox".to_string()) },
        InboxPair { inbox: Some("https://a/u2/inbox".to_string()), shared_inbox: Some("https://a/inbox".to_string()) },
        InboxPair { inbox: Some("https://b/u3/inbox".to_string()), shared_inbox: None },
        InboxPair { inbox: None, shared_inbox: None },
    ];
    assert_eq!(collect_inboxes(&pairs), vec!["https://a/inbox".to_string(), "https://b/u3/inbox".to_string()]);
}

#[test]
fn only_remote_mentions_need_delivery() {
    assert!(mentioned_user_inboxes(&user(None, None, None)).is_none());
    let p = mentioned_user_inboxes(&user(Some("b.example"), Some("https://b.example/bob/inbox"), None)).unwrap();
    assert_eq!(p.inbox(), &Some("https://b.example/bob/inbox".to_string()));
    assert_eq!(p.shared_inbox(), &None);
}

fn follow() -> FollowActivity {
    FollowActivity {
        id: "https://b.example/follows/1".to_string(),
        actor: "https://b.example/users/bob".to_string(),
        object: IdOrObject::Id("https://lightpub.example/user/alice".to_string()),
    }
}

#[test]
fn follow_requests_are_read() {
    let IncomingFollowRequest::ActorPair(id, a, b) = incoming_follow_request(&follow());
    assert_eq!(id, "https://b.example/follows/1");
    assert!(matches!(a, UserSpecifier::URL(ref u) if u == "https://b.example/users/bob"));
    assert!(matches!(b, UserSpecifier::URL(ref u) if u == "https://lightpub.example/user/alice"));
    assert_eq!(follow().get_id(), "https://b.example/follows/1");
}

#[test]
fn accepts_must_come_from_the_followee() {
    let ok = AcceptActivity {
        id: "https://lightpub.example/accept/1".to_string(),
        actor: "https://lightpub.example/user/alice".to_string(),
        object: IdOrObject::Object(follow()),
    };
    match accepted_follow_request(&ok).unwrap() {
        FollowRequestSpecifier::ActorPair(a, b) => {
            assert!(matches!(a, UserSpecifier::URL(ref u) if u == "https://b.example/users/bob"));
            assert!(matches!(b, UserSpecifier::URL(ref u) if u == "https://lightpub.example/user/alice"));
        }
        _ => panic!("an accept names the two users"),
    }
    let bad = AcceptActivity { actor: "https://c.example/users/eve".to_string(), ..ok };
    assert_eq!(accepted_follow_request(&bad).unwrap_err().status, 400);
}

fn note(in_reply_to: Option<&str>, to: Vec<String>, cc: Vec<String>) -> Note {
    Note {
        id: "https://b.example/notes/1".to_string(),
        attributed_to: "https://b.example/users/bob".to_string(),
        content: "<p>hi</p>".to_string(),
        to,
        cc,
        bto: None,
        bcc: None,
        published: 42,
        in_reply_to: in_reply_to.map(|s| Box::new(IdOrObject::Id(s.to_string()))),
        tags: Some(vec![
            TagEnum::Hashtag(Hashtag { name: "rust".to_string() }),
            TagEnum::Mention(Mention { href: "https://lightpub.example/user/alice".to_string(), name: "@alice".to_string() }),
        ]),
    }
}

#[test]
fn notes_must_be_attributed_to_their_creator() {
    let n = note(None, vec![PUBLIC.to_string()], vec![]);
    assert!(check_note_author("https://b.example/users/bob", &n).is_ok());
    assert_eq!(check_note_author("https://c.example/users/eve", &n).unwrap_err().status, 400);
}

#[test]
fn received_notes_become_post_requests() {
    let req = PostCreateRequest::try_from(note(None, vec![PUBLIC.to_string()], vec![])).unwrap();
    assert_eq!(req.privacy(), PostPrivacy::Public);
    assert_eq!(req.uri(), &Some("https://b.example/notes/1".to_string()));
    assert_eq!(req.created_at(), Some(42));
    assert_eq!(req.hint().hashtags, vec!["rust".to_string()]);
    assert!(matches!(&req.hint().mentions[0], UserSpecifier::URL(u) if u == "https://lightpub.example/user/alice"));
    assert!(matches!(req.poster(), UserSpecifier::URL(u) if u == "https://b.example/users/bob"));
    match req {
        PostCreateRequest::Normal(n) => assert_eq!(n.content, "<p>hi</p>"),
        _ => panic!("a note without a target is a normal post"),
    }
    let req = PostCreateRequest::try_from(note(Some("https://lightpub.example/post/1"), vec![FOLLOWERS.to_string()], vec![])).unwrap();
    assert_eq!(req.privacy(), PostPrivacy::Followers);
    match req {
        PostCreateRequest::Reply(r) => {
            assert!(matches!(r.reply_to, PostSpecifier::URI(ref u) if u == "https://lightpub.example/post/1"))
        }
        _ => panic!("a note with a target is a reply"),
    }
}

fn announce(to: Vec<String>, cc: Vec<String>) -> AnnounceActivity {
    AnnounceActivity {
        id: "https://b.example/announces/1".to_string(),
        actor: "https://b.example/users/bob".to_string(),
        object: IdOrObject::Id("https://lightpub.example/post/1".to_string()),
        published: 7,
        to,
        cc,
        bto: None,
        bcc: None,
    }
}

#[test]
fn announces_become_reposts() {
    match repost_from_announce(&announce(vec![], vec![PUBLIC.to_string()])).unwrap() {
        PostCreateRequest::Repost(r) => {
            assert_eq!(r.privacy, PostPrivacy::Unlisted);
            assert_eq!(r.uri, Some("https://b.example/announces/1".to_string()));
            assert_eq!(r.created_at, Some(7));
            assert!(matches!(r.repost_of, PostSpecifier::URI(ref u) if u == "https://lightpub.example/post/1"));
        }
        _ => panic!("an announce is a repost"),
    }
    let e = repost_from_announce(&announce(vec![FOLLOWERS.to_string()], vec![])).unwrap_err();
    assert_eq!(e.status, 400);
}

fn person(owner: &str) -> Person {
    Person {
        id: "https://b.example/users/bob".to_string(),
        name: "Bob".to_string(),
        inbox: "https://b.example/users/bob/inbox".to_string(),
        outbox: "https://b.example/users/bob/outbox".to_string(),
        shared_inbox: Some("https://b.example/inbox".to_string()),
        followers: None,
        following: None,
        liked: None,
        preferred_username: "bob".to_string(),
        public_key: PublicKeyEnum::from(PublicKey {
            id: "https://b.example/users/bob#main-key".to_string(),
            owner: owner.to_string(),
            public_key_pem: "PEM\n\n".to_string(),
        }),
        summary: None,
    }
}

#[test]
fn remote_actors_are_imported() {
    let imp = import_remote_actor(person("https://b.example/users/bob"), "b.example".to_string(), 9, 1000).unwrap();
    assert_eq!(imp.user.id, 9);
    assert_eq!(imp.user.host, Some("b.example".to_string()));
    assert_eq!(imp.user.bio, "");
    assert_eq!(imp.user.public_key, Some("PEM\n".to_string()));
    assert_eq!(imp.key_pem, "PEM\n");
    assert_eq!(imp.remote.fetched_at, 1000);
    let e = import_remote_actor(person("https://c.example/users/eve"), "b.example".to_string(), 9, 1000);
    assert!(matches!(e, Err(UserFindError::RemoteError)));
    assert!(matches!(Actor::from(person("x")), Actor::Person(_)));
}

#[test]
fn remote_users_stay_fresh_for_an_hour() {
    assert!(is_fresh(3_599_999, 0));
    assert!(!is_fresh(3_600_000, 0));
    assert!(is_fresh(i64::MIN, i64::MAX));
}

#[test]
fn local_lookups() {
    assert!(matches!(local_lookup(&UserSpecifier::Username("bob".to_string(), None)), LocalLookup::ByUsername(ref n) if n == "bob"));
    assert!(matches!(local_lookup(&UserSpecifier::Username("bob".to_string(), Some("b".to_string()))), LocalLookup::NotLocal));
    assert!(matches!(local_lookup(&UserSpecifier::URL("https://b".to_string())), LocalLookup::NotLocal));
    assert!(matches!(local_lookup(&UserSpecifier::ID(5)), LocalLookup::ById(5)));
    assert!(check_found_local(&user(None, None, None)).is_ok());
    assert_eq!(check_found_local(&user(Some("b.example"), None, None)), Err(LocalUserFindError::NotLocalUser));
}

#[test]
fn follows_are_planned() {
    let me = user(None, None, None);
    assert!(matches!(plan_follow(&me, &user(None, None, None)), Ok(FollowPlan::Local)));
    assert!(matches!(plan_follow(&me, &user(Some("b.example"), Some("https://b.example/bob/inbox"), None)), Ok(FollowPlan::Remote(ref i)) if i == "https://b.example/bob/inbox"));
    assert!(matches!(plan_follow(&me, &user(Some("b.example"), None, None)), Err(FollowError::FolloweeNotFound)));
}

#[test]
fn local_lookup_errors_map_to_user_errors() {
    let e = map_to_local_error(ServiceError::SpecificError(LocalUserFindError::UserNotFound));
    assert!(matches!(e, ServiceError::SpecificError(UserFindError::UserNotFound)));
    let e = map_to_local_error(ServiceError::MiscError(MiscFailure { message: "x".to_string(), status: 500 }));
    assert!(matches!(e, ServiceError::MiscError(ref m) if m.status == 500 && m.message == "x"));
}

#[test]
fn queue_answers_round_trip() {
    let ok: ResponsePayload<i32, FollowError> = ResponsePayload::from_result(Ok(3));
    assert!(matches!(ok.into_result(), Ok(3)));
    let specific: ResponsePayload<i32, FollowError> =
        ResponsePayload::from_result(Err(ServiceError::SpecificError(FollowError::RequestNotFound)));
    assert!(matches!(specific.into_result(), Err(ServiceError::SpecificError(FollowError::RequestNotFound))));
    let misc: ResponsePayload<i32, FollowError> =
        ResponsePayload::from_result(Err(ServiceError::MiscError(misc_failure_of(&TaskTimeoutError::new()))));
    match &misc {
        ResponsePayload::Failed(ResponseErrorPayload::Other(m, s)) => {
            assert_eq!(m, "server is too busy");
            assert_eq!(*s, 503);
        }
        _ => panic!("a general failure is reported with its message"),
    }
    match misc.into_result() {
        Err(ServiceError::MiscError(m)) => {
            assert_eq!(m.status, 503);
            assert_eq!(m.message, "internal server error");
        }
        _ => panic!("a general failure comes back as a general failure"),
    }
    let b = BackgroundProcessingError::new("boom", 502);
    assert_eq!(b.status_code(), 502);
    assert_eq!(b.message(), "internal server error");
}

#[test]
fn webfinger_urls_and_answers() {
    assert_eq!(webfinger_url("bob", "b.example"), "https://b.example/.well-known/webfinger?resource=acct:bob@b.example");
    let link = |rel: Option<&str>, t: Option<&str>, href: Option<&str>| WebfingerLinkFields {
        rel: rel.map(|s| s.to_string()),
        link_type: t.map(|s| s.to_string()),
        href: href.map(|s| s.to_string()),
    };
    let links = vec![
        link(Some("self"), None, Some("https://b.example/incomplete")),
        link(Some("http://webfinger.net/rel/profile-page"), Some("text/html"), Some("https://b.example/@bob")),
        link(Some("self"), Some("application/activity+json"), Some("https://b.example/users/bob")),
    ];
    let w = webfinger_answer(&links).unwrap();
    assert_eq!(w.api_url(), "https://b.example/users/bob");
    assert_eq!(w.profile_url(), &Some("https://b.example/@bob".to_string()));
    let none = webfinger_answer(&vec![links[1].clone()]);
    assert!(matches!(none, Err(lightpub::services::WebfingerError::ApiUrlNotFound)));
}

#[test]
fn follow_requests_are_rendered_as_follow_activities() {
    let ids = IDGetterService::new(config());
    let uf = UserFollowInfo {
        req_id: POST,
        follower_id: POSTER,
        follower_uri: None,
        followee_id: 1,
        followee_uri: Some("https://b.example/users/bob".to_string()),
    };
    let f = follow_request_activity(&ids, &uf);
    assert_eq!(f.id, "https://lightpub.example/follow-req/0190a7f61c4b7d8e9f00aabbccddeeff");
    assert_eq!(f.actor, "https://lightpub.example/user/0190a7f61c4b7d8e9f00112233445566");
    assert!(matches!(f.object, IdOrObject::Id(ref o) if o == "https://b.example/users/bob"));
}

#[test]
fn worker_answers_or_times_out() {
    let r: Result<i32, ServiceError<FollowError>> = worker_answer(Some(ResponsePayload::Success(4)));
    assert!(matches!(r, Ok(4)));
    let r: Result<i32, ServiceError<FollowError>> = worker_answer(None);
    match r {
        Err(ServiceError::MiscError(m)) => assert_eq!((m.status, m.message.as_str()), (503, "server is too busy")),
        _ => panic!("no answer means the server is too busy"),
    }
}

#[test]
fn rendered_notes_are_read_back_with_their_privacy() {
    for p in [PostPrivacy::Public, PostPrivacy::Unlisted, PostPrivacy::Followers, PostPrivacy::Private] {
        let r = renderer().render_local_post(&local_post(p, Some("<p>hello</p>"))).unwrap();
        let note = match r.note_create.object {
            IdOrObject::Object(CreatableObject::Note(n)) => n,
            _ => panic!("the object is the note"),
        };
        let req = PostCreateRequest::try_from(note).unwrap();
        assert_eq!(req.privacy(), p);
        assert_eq!(req.uri(), &Some("https://lightpub.example/post/0190a7f61c4b7d8e9f00aabbccddeeff".to_string()));
        match req {
            PostCreateRequest::Normal(n) => assert_eq!(n.content, "<p>hello</p>"),
            _ => panic!("a note without a target is read as a normal post"),
        }
    }
}

#[test]
fn follow_lookup_failures_name_the_missing_side() {
    let e = follow_lookup_error(ServiceError::SpecificError(UserFindError::UserNotFound), FollowError::FolloweeNotFound);
    assert!(matches!(e, ServiceError::SpecificError(FollowError::FolloweeNotFound)));
    let e = follow_lookup_error(ServiceError::MiscError(MiscFailure { message: "m".to_string(), status: 502 }), FollowError::FollowerNotFound);
    assert!(matches!(e, ServiceError::MiscError(ref m) if m.status == 502));
}
