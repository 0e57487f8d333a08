use lightpub::models::Method;
use lightpub::signature::prepare_verification;
use lightpub::signing::{attach_signature, sign_message, verdict_outcome, verify_with_key, AttachSignatureError};
use lightpub::signature::VerifyError;
use lightpub::user_spec::UserSpecifier;
use base64::Engine;
use rand::rngs::StdRng;
use rand::SeedableRng;
use rsa::pkcs1v15::SigningKey;
use rsa::pkcs8::{EncodePrivateKey, EncodePublicKey, LineEnding};
use rsa::sha2::Sha256;
use rsa::signature::{SignatureEncoding, Signer};
use rsa::RsaPrivateKey;

/// A key pair for these tests, generated from a fixed seed (small, so that
/// generation is quick).
fn test_keys() -> (String, String, RsaPrivateKey) {
    let mut rng = StdRng::seed_from_u64(7);
    let key = RsaPrivateKey::new(&mut rng, 512).unwrap();
    let private_pem = key.to_pkcs8_pem(LineEnding::LF).unwrap().to_string();
    let public_pem = key.to_public_key().to_public_key_pem(LineEnding::LF).unwrap();
    (private_pem, public_pem, key)
}

/// The message that `signed_post` signs.
const SIGNED_MESSAGE: &str = "(request-target): post /inbox\ncontent-type: application/activity+json\nhost: remote.example\ndate: Tue, 01 Jan 2030 00:00:00 GMT\ndigest: SHA-256=RBNvo1WzZ4oRRq0W9+hknpT7T8If536DEMBg9hyq/4o=";

const DIGEST: &str = "SHA-256=RBNvo1WzZ4oRRq0W9+hknpT7T8If536DEMBg9hyq/4o=";

fn signed_post(private_pem: &str) -> Vec<(String, String)> {
    let headers = vec![("content-type".to_string(), "application/activity+json".to_string())];
    attach_signature(
        "https://lightpub.example/user/alice#main-key",
        private_pem,
        Method::POST,
        "/inbox",
        &headers,
        "remote.example",
        "Tue, 01 Jan 2030 00:00:00 GMT",
        Some(b"{}".as_slice()),
    )
    .unwrap()
}

fn get<'a>(h: &'a [(String, String)], name: &str) -> Vec<&'a str> {
    h.iter().filter(|p| p.0 == name).map(|p| p.1.as_str()).collect()
}

#[test]
fn outgoing_post_is_signed() {
    let (private_pem, _, key) = test_keys();
    let h = signed_post(&private_pem);
    assert_eq!(get(&h, "host"), vec!["remote.example"]);
    assert_eq!(get(&h, "date"), vec!["Tue, 01 Jan 2030 00:00:00 GMT"]);
    assert_eq!(get(&h, "digest"), vec![DIGEST]);
    let expected_signature = SigningKey::<Sha256>::new(key).sign(SIGNED_MESSAGE.as_bytes()).to_vec();
    let expected = format!(
        "keyId=\"https://lightpub.example/user/alice#main-key\",algorithm=\"rsa-sha256\",headers=\"(request-target) content-type host date digest\",signature=\"{}\"",
        base64::prelude::BASE64_STANDARD.encode(expected_signature)
    );
    assert_eq!(get(&h, "signature"), vec![expected.as_str()]);
    assert_eq!(get(&h, "authorization"), vec![format!("Signature {}", expected).as_str()]);
}

#[test]
fn existing_host_date_and_digest_are_respected_or_replaced() {
    let (private_pem, _, _) = test_keys();
    let headers = vec![
        ("content-type".to_string(), "text/plain".to_string()),
        ("host".to_string(), "given.example".to_string()),
        ("digest".to_string(), "stale".to_string()),
    ];
    let h = attach_signature("k", &private_pem, Method::POST, "/", &headers, "other.example", "now", Some(b"{}".as_slice()))
        .unwrap();
    assert_eq!(get(&h, "host"), vec!["given.example"]);
    assert_eq!(get(&h, "date"), vec!["now"]);
    assert_eq!(get(&h, "digest"), vec![DIGEST]);
}

#[test]
fn get_requests_sign_without_digest() {
    let (private_pem, _, _) = test_keys();
    let headers = vec![("content-type".to_string(), "application/activity+json".to_string())];
    let h = attach_signature("k", &private_pem, Method::GET, "/user/a", &headers, "remote.example", "now", None).unwrap();
    assert!(get(&h, "digest").is_empty());
    assert!(get(&h, "signature")[0].contains("headers=\"(request-target) content-type host date\""));
}

#[test]
fn missing_content_type_cannot_be_signed() {
    let (private_pem, _, _) = test_keys();
    let r = attach_signature("k", &private_pem, Method::GET, "/", &vec![], "remote.example", "now", None);
    match r {
        Err(AttachSignatureError::NotIncludedHeader(n)) => assert_eq!(n.0, "content-type"),
        _ => panic!("content-type is signed and missing"),
    }
}

#[test]
fn unusable_private_key_is_reported() {
    let headers = vec![("content-type".to_string(), "text/plain".to_string())];
    let r = attach_signature("k", "not a key", Method::GET, "/", &headers, "h", "d", None);
    assert!(matches!(r, Err(AttachSignatureError::UnusableKey)));
    assert!(sign_message("m", "not a key").is_none());
}

#[test]
fn signed_request_verifies_with_public_key() {
    let (private_pem, public_pem, _) = test_keys();
    let h = signed_post(&private_pem);
    let input = prepare_verification(&h, Method::POST, "/inbox").unwrap();
    assert_eq!(input.key_id, "https://lightpub.example/user/alice#main-key");
    assert_eq!(input.message.message_to_sign, SIGNED_MESSAGE);
    let who = verify_with_key(&input, &public_pem, 77).unwrap();
    assert!(matches!(who, UserSpecifier::ID(77)));
}

#[test]
fn tampered_request_does_not_verify() {
    let (private_pem, public_pem, _) = test_keys();
    let mut h = signed_post(&private_pem);
    for p in h.iter_mut() {
        if p.0 == "date" {
            p.1 = "Wed, 02 Jan 2030 00:00:00 GMT".to_string();
        }
    }
    let input = prepare_verification(&h, Method::POST, "/inbox").unwrap();
    assert!(matches!(verify_with_key(&input, &public_pem, 77), Err(VerifyError::SignatureNotMatch)));
    let input = prepare_verification(&signed_post(&private_pem), Method::POST, "/other").unwrap();
    assert!(matches!(verify_with_key(&input, &public_pem, 77), Err(VerifyError::SignatureNotMatch)));
}

#[test]
fn unreadable_public_key_is_a_failure() {
    let (private_pem, _, _) = test_keys();
    let input = prepare_verification(&signed_post(&private_pem), Method::POST, "/inbox").unwrap();
    assert!(matches!(verify_with_key(&input, "garbage", 77), Err(VerifyError::Other(_))));
    assert!(verdict_outcome(Some(true)).is_ok());
    assert!(matches!(verdict_outcome(Some(false)), Err(VerifyError::SignatureNotMatch)));
}
