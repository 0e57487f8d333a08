use lightpub::api::{self, bearer_token, AuthUser, ErrorResponse};
use lightpub::config::{Config, DatabaseConfig, DevConfig, FederationConfig, InstanceConfig, QueueConfig};
use lightpub::ids::{new_id_getter_service, HasRemoteUri, IDGetterService, UserAttribute};
use lightpub::models::User;
use lightpub::user_spec::{parse_webfinger_resource, webfinger_resource, UserSpecifier, UserSpecifierParseError, WebfingerRejection};

fn config() -> Config {
    Config {
        hostname: "lightpub.example".to_string(),
        http_scheme: "https".to_string(),
        frontend_url: "https://front.example/#".to_string(),
        database: DatabaseConfig { path: "lightpub.db".to_string() },
        queue: QueueConfig {
            host: "127.0.0.1".to_string(),
            port: 5672,
            user: "guest".to_string(),
            password: "guest".to_string(),
        },
        instance: InstanceConfig {
            name: "Lightpub dev".to_string(),
            description: "Lightpub development server".to_string(),
            open_registration: true,
        },
        upload_dir: "uploads".to_string(),
        dev: DevConfig { debug: true, ssl_verify: false },
        federation: FederationConfig { enabled: true },
    }
}

fn user(id: u128, uri: Option<&str>) -> User {
    User {
        id,
        username: "alice".to_string(),
        host: uri.map(|_| "remote.example".to_string()),
        nickname: "Alice".to_string(),
        bio: String::new(),
        uri: uri.map(|s| s.to_string()),
        shared_inbox: None,
        inbox: None,
        outbox: None,
        public_key: None,
        created_at: 0,
    }
}

const ID: u128 = 0x0190a7f61c4b7d8e9f00112233445566;

#[test]
fn base_url_joins_scheme_and_host() {
    assert_eq!(config().base_url(), "https://lightpub.example");
}

#[test]
fn local_users_get_uris_under_the_base() {
    let ids = new_id_getter_service(config());
    let u = user(ID, None);
    assert_eq!(u.get_local_id(), "0190a7f61c4b7d8e9f00112233445566");
    assert_eq!(ids.get_user_id(&u), "https://lightpub.example/user/0190a7f61c4b7d8e9f00112233445566");
    assert_eq!(
        ids.get_user_id_attr(&u, UserAttribute::Inbox),
        Some("https://lightpub.example/user/0190a7f61c4b7d8e9f00112233445566/inbox".to_string())
    );
    assert_eq!(
        ids.get_user_id_attr(&u, UserAttribute::PublicKey),
        Some("https://lightpub.example/user/0190a7f61c4b7d8e9f00112233445566#main-key".to_string())
    );
    assert_eq!(ids.get_post_id(&u), "https://lightpub.example/post/0190a7f61c4b7d8e9f00112233445566");
}

#[test]
fn remote_users_keep_their_uri() {
    let ids = IDGetterService::new(config());
    let u = user(ID, Some("https://remote.example/users/alice"));
    assert_eq!(ids.get_user_id(&u), "https://remote.example/users/alice");
    assert_eq!(ids.get_user_id_attr(&u, UserAttribute::Outbox), None);
}

#[test]
fn follow_request_ids_round_trip() {
    let ids = IDGetterService::new(config());
    let u = user(ID, None);
    let uri = ids.get_follower_request_id(&u);
    assert_eq!(uri, "https://lightpub.example/follow-req/0190a7f61c4b7d8e9f00112233445566");
    assert_eq!(ids.extract_follow_request_id(&uri), Some("0190a7f61c4b7d8e9f00112233445566".to_string()));
    assert_eq!(ids.extract_follow_request_id("https://other.example/follow-req/x"), None);
    assert_eq!(ids.extract_follow_request_id("https://lightpub.example/post/x"), None);
}

#[test]
fn attribute_suffixes() {
    assert_eq!(UserAttribute::Following.as_url(), "/following");
    assert_eq!(UserAttribute::Followers.as_url(), "/followers");
    assert_eq!(UserAttribute::Liked.as_url(), "/liked");
}

#[test]
fn user_specifiers_parse() {
    let r = UserSpecifier::parse("@alice").unwrap();
    assert!(matches!(r, UserSpecifier::Username(ref n, None) if n == "alice"));
    let r = UserSpecifier::parse("@alice@remote.example").unwrap();
    assert!(matches!(r, UserSpecifier::Username(ref n, Some(ref h)) if n == "alice" && h == "remote.example"));
    assert_eq!(UserSpecifier::parse("@a@b@c").unwrap_err(), UserSpecifierParseError::InvalidFormat);
    let r = UserSpecifier::parse("0190a7f6-1c4b-7d8e-9f00-112233445566").unwrap();
    assert!(matches!(r, UserSpecifier::ID(i) if i == ID));
    assert_eq!(UserSpecifier::parse("not-an-id").unwrap_err(), UserSpecifierParseError::InvalidFormat);
}

#[test]
fn api_specifiers_round_trip() {
    for s in ["@alice", "@alice@remote.example", "0190a7f61c4b7d8e9f00112233445566"] {
        assert_eq!(api::UserSpecifier::parse(s).unwrap().to_string(), s);
    }
    assert!(api::UserSpecifier::parse("@a@b@c").is_err());
}

#[test]
fn webfinger_resources() {
    let r = parse_webfinger_resource("acct:alice@lightpub.example", "lightpub.example");
    assert_eq!(r, Ok(("alice@lightpub.example".to_string(), "alice".to_string())));
    let r = parse_webfinger_resource("acct:alice", "lightpub.example");
    assert_eq!(r, Ok(("alice".to_string(), "alice".to_string())));
    assert_eq!(parse_webfinger_resource("alice@lightpub.example", "lightpub.example"), Err(WebfingerRejection::BadRequest));
    assert_eq!(parse_webfinger_resource("mailto:alice@lightpub.example", "lightpub.example"), Err(WebfingerRejection::BadRequest));
    assert_eq!(parse_webfinger_resource("acct:alice@other.example", "lightpub.example"), Err(WebfingerRejection::NotFound));
    assert_eq!(parse_webfinger_resource("acct:a@b@c", "lightpub.example"), Err(WebfingerRejection::BadRequest));
}

#[test]
fn webfinger_resource_is_percent_decoded() {
    let r = webfinger_resource("acct%3Aalice%40lightpub.example", "lightpub.example");
    assert_eq!(r, Some(Ok(("alice@lightpub.example".to_string(), "alice".to_string()))));
    assert_eq!(webfinger_resource("acct%3A%FF", "lightpub.example"), None);
}

#[test]
fn bearer_tokens() {
    assert_eq!(bearer_token("Bearer abc123"), Some("abc123".to_string()));
    assert_eq!(bearer_token("Basic abc123"), None);
    assert_eq!(bearer_token("Bearer "), Some(String::new()));
}

#[test]
fn authentication_is_required() {
    let anonymous = AuthUser { authed_user: None };
    let e = anonymous.must_auth().unwrap_err();
    assert_eq!(e.status, 401);
    assert_eq!(e.message, "unauthorized");
    let authed = AuthUser::from_user(user(ID, None));
    assert_eq!(authed.must_auth().unwrap().id, ID);
}

#[test]
fn error_responses() {
    let e = ErrorResponse::new_status(404, "not found");
    assert_eq!(e.status, 404);
    let r: Result<(), ErrorResponse> = ErrorResponse::new(400, "bad".to_string()).into_result();
    assert_eq!(r.unwrap_err().message, "bad");
}
