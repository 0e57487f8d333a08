use lightpub::api::PostCreateRequest as PostBody;
use lightpub::config::{Config, DatabaseConfig, DevConfig, FederationConfig, InstanceConfig, QueueConfig};
use lightpub::handlers::{
    host_meta, local_user_error_response, login_error_response, node_info, node_info_links, post_create_error_response,
    post_request_for, read_post_form, received_post_outcome, webfinger_document, PostForm,
};
use lightpub::models::PostPrivacy;
use lightpub::policy::PostCreateError;
use lightpub::services::{LocalUserFindError, MiscFailure, PostCreateRequest, PostSpecifier, ServiceError, UserLoginError};
use lightpub::user_spec::UserSpecifier;

fn body(content: Option<&str>, privacy: &str, reply: Option<&str>, repost: Option<&str>) -> PostBody {
    PostBody {
        content: content.map(|s| s.to_string()),
        privacy: privacy.to_string(),
        reply_to_id: reply.map(|s| s.to_string()),
        repost_of_id: repost.map(|s| s.to_string()),
    }
}

const TARGET: &str = "0190a7f6-1c4b-7d8e-9f00-112233445566";
const TARGET_ID: u128 = 0x0190a7f61c4b7d8e9f00112233445566;

fn form(content: Option<&str>, reply: Option<u128>, repost: Option<u128>) -> PostForm {
    PostForm { content: content.map(|s| s.to_string()), privacy: PostPrivacy::Public, reply_to_id: reply, repost_of_id: repost }
}

#[test]
fn post_bodies_are_read() {
    let f = read_post_form(&body(Some("hi"), "unlisted", Some(TARGET), None)).unwrap();
    assert_eq!(f.privacy, PostPrivacy::Unlisted);
    assert_eq!(f.reply_to_id, Some(TARGET_ID));
    assert_eq!(f.repost_of_id, None);
    assert_eq!(f.content, Some("hi".to_string()));
    assert_eq!(read_post_form(&body(None, "secret", None, None)).unwrap_err().status, 400);
    assert_eq!(read_post_form(&body(Some("x"), "follower", None, None)).unwrap().privacy, PostPrivacy::Followers);
    assert_eq!(read_post_form(&body(None, "public", Some("nope"), None)).unwrap_err().status, 400);
    assert_eq!(read_post_form(&body(None, "public", None, Some("nope"))).unwrap_err().status, 400);
}

#[test]
fn post_requests_by_kind() {
    match post_request_for(5, form(Some("hello"), None, None)).unwrap() {
        PostCreateRequest::Normal(n) => {
            assert_eq!(n.content, "hello");
            assert!(matches!(n.poster, UserSpecifier::ID(5)));
            assert!(n.uri.is_none() && n.created_at.is_none() && n.hints.hashtags.is_empty());
        }
        _ => panic!("content alone makes a normal post"),
    }
    assert!(matches!(post_request_for(5, form(None, None, Some(7))).unwrap(), PostCreateRequest::Repost(ref r) if matches!(r.repost_of, PostSpecifier::ID(7))));
    assert!(matches!(post_request_for(5, form(Some("q"), None, Some(7))).unwrap(), PostCreateRequest::Quote(ref r) if r.content == "q"));
    assert!(matches!(post_request_for(5, form(Some("r"), Some(7), None)).unwrap(), PostCreateRequest::Reply(ref r) if matches!(r.reply_to, PostSpecifier::ID(7))));
}

#[test]
fn malformed_post_requests_are_bad_requests() {
    let e = post_request_for(5, form(None, None, None)).unwrap_err();
    assert_eq!((e.status, e.message.as_str()), (400, "content is null"));
    let e = post_request_for(5, form(None, Some(7), None)).unwrap_err();
    assert_eq!((e.status, e.message.as_str()), (400, "content is null"));
    let e = post_request_for(5, form(Some("x"), Some(7), Some(8))).unwrap_err();
    assert_eq!((e.status, e.message.as_str()), (400, "repost_of_id and reply_to_id cannot be set at the same time"));
}

fn misc(status: i32, message: &str) -> MiscFailure {
    MiscFailure { message: message.to_string(), status }
}

#[test]
fn post_failures_are_answered() {
    let e = post_create_error_response(ServiceError::SpecificError(PostCreateError::RepostOfNotFound));
    assert_eq!((e.status, e.message.as_str()), (404, "repost_of_id not found"));
    let e = post_create_error_response(ServiceError::SpecificError(PostCreateError::ReplyToNotFound));
    assert_eq!((e.status, e.message.as_str()), (404, "reply_to not found"));
    let e = post_create_error_response(ServiceError::SpecificError(PostCreateError::NestedRepost));
    assert_eq!(e.status, 400);
    let e = post_create_error_response(ServiceError::SpecificError(PostCreateError::DisallowedPrivacyForRepost));
    assert_eq!(e.status, 400);
    let e = post_create_error_response(ServiceError::SpecificError(PostCreateError::PosterNotFound));
    assert_eq!((e.status, e.message.as_str()), (500, "internal server error"));
    let e = post_create_error_response(ServiceError::MiscError(misc(503, "busy")));
    assert_eq!((e.status, e.message.as_str()), (503, "busy"));
}

#[test]
fn login_and_lookup_failures_are_answered() {
    let e = login_error_response(ServiceError::SpecificError(UserLoginError::AuthFailed));
    assert_eq!((e.status, e.message.as_str()), (401, "auth failed"));
    let e = login_error_response(ServiceError::MiscError(misc(500, "db down")));
    assert_eq!((e.status, e.message.as_str()), (500, "db down"));
    let e = local_user_error_response(ServiceError::SpecificError(LocalUserFindError::NotLocalUser));
    assert_eq!((e.status, e.message.as_str()), (404, "user not found"));
    let e = local_user_error_response(ServiceError::SpecificError(LocalUserFindError::UserNotFound));
    assert_eq!(e.status, 500);
}

#[test]
fn existing_received_posts_are_skipped() {
    assert!(received_post_outcome(Ok(1)).is_ok());
    assert!(received_post_outcome(Err(ServiceError::SpecificError(PostCreateError::AlreadyExists))).is_ok());
    assert_eq!(received_post_outcome(Err(ServiceError::SpecificError(PostCreateError::PosterNotFound))).unwrap_err().status, 500);
    assert_eq!(received_post_outcome(Err(ServiceError::MiscError(misc(502, "x")))).unwrap_err().status, 502);
}

fn config() -> Config {
    Config {
        hostname: "lightpub.example".to_string(),
        http_scheme: "https".to_string(),
        frontend_url: String::new(),
        database: DatabaseConfig { path: String::new() },
        queue: QueueConfig { host: String::new(), port: 0, user: String::new(), password: String::new() },
        instance: InstanceConfig { name: "Lightpub dev".to_string(), description: "Lightpub development server".to_string(), open_registration: true },
        upload_dir: String::new(),
        dev: DevConfig { debug: false, ssl_verify: true },
        federation: FederationConfig { enabled: true },
    }
}

#[test]
fn node_info_describes_the_server() {
    let n = node_info("2.1", &config());
    assert_eq!(n.version, "2.1");
    assert_eq!(n.software_name, "lightpub");
    assert_eq!(n.software_version, "0.1");
    assert_eq!(n.protocols, vec!["activitypub".to_string()]);
    assert!(!n.open_registrations);
    assert_eq!(n.node_name, "Lightpub dev");
    assert_eq!(n.node_description, "Lightpub development server");
}

#[test]
fn node_info_links_point_at_documents() {
    let l = node_info_links("https://lightpub.example");
    assert_eq!(l.len(), 2);
    assert_eq!(l[0].rel, "http://nodeinfo.diaspora.software/ns/schema/2.1");
    assert_eq!(l[0].href, "https://lightpub.example/nodeinfo/2.0");
    assert_eq!(l[1].href, "https://lightpub.example/nodeinfo/2.1");
}

#[test]
fn host_meta_templates_webfinger() {
    let x = host_meta("https://lightpub.example");
    assert!(x.contains("template=\"https://lightpub.example/.well-known/webfinger?resource={uri}\""));
    assert!(x.starts_with("\n    <?xml version=\"1.0\" encoding=\"UTF-8\"?>"));
    assert!(x.trim_end().ends_with("</XRD>"));
}

#[test]
fn webfinger_links_to_the_actor() {
    let d = webfinger_document("alice@lightpub.example", "https://lightpub.example", TARGET_ID);
    assert_eq!(d.subject, "alice@lightpub.example");
    assert_eq!(d.links.len(), 1);
    assert_eq!(d.links[0].rel, "self");
    assert_eq!(d.links[0].link_type, "application/activity+json");
    assert_eq!(d.links[0].href, "https://lightpub.example/user/0190a7f61c4b7d8e9f00112233445566");
}
