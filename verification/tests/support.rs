use lightpub::application::user::{check_login, GetUserOptions, LoginError};
use lightpub::content::new_post_content_service;
use lightpub::pagination::{
    CollectionPageResponse, CollectionPageType, CollectionResponse, CollectionType, PaginatableWrapper,
    PaginatedResponse,
};
use lightpub::repository::RepositoryError;
use lightpub::utils::{generate_uuid, generate_uuid_random, uuid_to_string, PublicKey};
use lightpub::domain::model::UtcDateTime;
use lightpub::application::user::{login_token, new_local_user, token_owner};
use lightpub::domain::factory::auth::DefaultAuthTokenFactory;

#[test]
fn html_is_reduced_to_its_text() {
    let svc = new_post_content_service();
    assert_eq!(svc.html_to_internal("<p>Hello <b>world</b></p>"), "Hello world");
    assert_eq!(svc.html_to_internal("plain"), "plain");
    assert_eq!(svc.html_to_internal("<p></p>"), "");
    assert_eq!(svc.html_to_internal("a &amp; b"), "a & b");
}

fn items(n: u64) -> Vec<PaginatableWrapper<String, u64>> {
    (0..n).map(|i| PaginatableWrapper::new(format!("item{}", i), i * 10)).collect()
}

#[test]
fn pages_stop_before_the_extra_result() {
    let page = PaginatedResponse::from_result(items(4), 3, |k: &u64| format!("/items?before={}", k));
    assert_eq!(page.result.len(), 3);
    assert_eq!(page.result[2].value, "item2");
    assert_eq!(page.next, Some("/items?before=30".to_string()));
}

#[test]
fn last_page_has_no_next_link() {
    let page = PaginatedResponse::from_result(items(3), 3, |k: &u64| format!("/items?before={}", k));
    assert_eq!(page.result.len(), 3);
    assert_eq!(page.next, None);
    let page = PaginatedResponse::from_result(items(0), 3, |k: &u64| format!("/items?before={}", k));
    assert!(page.result.is_empty());
}

#[test]
fn collection_pages_carry_the_page() {
    let page = PaginatedResponse::from_result(items(2), 1, |k: &u64| format!("next{}", k));
    let c = CollectionPageResponse::from_paginated_response(
        CollectionPageType::OrderedCollectionPage,
        page,
        "/followers".to_string(),
        Some(2),
    );
    assert_eq!(c.items.len(), 1);
    assert_eq!(c.next, Some("next10".to_string()));
    assert_eq!(c.part_of, "/followers");
    let first = CollectionResponse::from_first(CollectionType::OrderedCollection, "/followers?page=1".to_string(), None);
    assert_eq!(first.first, Some("/followers?page=1".to_string()));
    assert_eq!(first.collection_type, CollectionType::OrderedCollection);
}

#[test]
fn logins_need_user_and_password() {
    assert_eq!(check_login(true, true), Ok(()));
    assert_eq!(check_login(false, true), Err(LoginError::UserNotFound));
    assert_eq!(check_login(true, false), Err(LoginError::InvalidPassword));
    assert!(!GetUserOptions::default().fill_uris);
}

#[test]
fn uuids_are_printed_as_32_hex_digits() {
    assert_eq!(uuid_to_string(0x0190a7f61c4b7d8e9f00112233445566), "0190a7f61c4b7d8e9f00112233445566");
    assert_eq!(uuid_to_string(0), "00000000000000000000000000000000");
    let a = generate_uuid();
    assert_eq!((a >> 76) & 0xf, 7);
    assert_eq!((a >> 62) & 0x3, 2);
    let b = generate_uuid_random();
    assert_eq!((b >> 76) & 0xf, 4);
    assert_eq!((b >> 62) & 0x3, 2);
}

#[test]
fn public_keys_are_of_type_key() {
    let k = PublicKey::new("id#main-key".to_string(), "id".to_string(), "PEM".to_string());
    assert_eq!(k.key_type, "Key");
    let ext = k.into_ext();
    assert_eq!(ext.public_key.owner, "id");
}

#[test]
fn repository_errors_describe_themselves() {
    assert_eq!(RepositoryError::UserCreationError("dup".to_string()).message(), "User creation error: dup");
    assert_eq!(RepositoryError::UserFindError("gone".to_string()).message(), "User find error: gone");
}

#[test]
fn registration_makes_a_local_user_with_the_password() {
    let u = new_local_user(42, "alice", "Alice", "1234Abcd!", UtcDateTime::from_millis(5)).unwrap();
    assert_eq!(u.id().id(), 42);
    assert!(u.host.is_none());
    assert!(u.validate_password("1234Abcd!"));
    assert!(!u.validate_password("1234Abcd"));
}

#[test]
fn login_issues_token_for_matching_password() {
    let u = new_local_user(42, "alice", "Alice", "1234Abcd!", UtcDateTime::from_millis(5)).unwrap();
    let mut f = DefaultAuthTokenFactory::new();
    let t = login_token(Some(&u), "1234Abcd!", &mut f).unwrap();
    assert_eq!(t.user_id().id(), 42);
    assert_eq!(t.token().len(), 64);
    assert!(matches!(login_token(Some(&u), "wrong", &mut f), Err(LoginError::InvalidPassword)));
    assert!(matches!(login_token(None, "1234Abcd!", &mut f), Err(LoginError::UserNotFound)));
    assert_eq!(token_owner(Some(t)).unwrap().user_id().id(), 42);
    assert!(token_owner(None).is_none());
}
