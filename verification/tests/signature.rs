use lightpub::models::Method;
use lightpub::signature::{
    authorization_header_value, covers_required_headers, digest_header_value, extract_headers, extract_key_id,
    extract_signature, make_signed_message, required_signed_headers, signature_header_value,
};

const SIG: &str = r#"keyId="https://misskey.tinax.local/users/9qov6wdgdsq50001#main-key",algorithm="rsa-sha256",headers="(request-target) date host digest",signature="cvrDo17JtNuPsQItSF0nd6/EIiTkMoZcwG4XvzaraVtzY8yGUktvzakL5h9LZOte/cwoRLVn87mUczziWu36PEEl7nCW23jOieOEAl+nv4tkYvv160ne/zcUjbRJYP6t9seb6FlfXuzRfgvxdEDmdnox0hLn+yZTiOsVWfCoSvRTroUbESxIHGQZOL7ubwN/0SnAxeP7TJpHqxs8lynY3/plpRDWekUwFu0E8ncKgSq8UqO5qPZoGSgiFJCb7zp7BlcWro7xbu6JYzHBVAn9WQC0zTal08WrvQ38U9GcTiGhy8EOl7/qAO85WAOashfPwW9GArhaXL2E/TvuLuOlcQ==""#;

#[test]
fn test_extract_headers_from_sig() {
    let headers = extract_headers(SIG);
    assert_eq!(headers, vec!["(request-target)", "date", "host", "digest"]);
}

#[test]
fn test_extract_sig_from_sig() {
    let signature = extract_signature(SIG);
    assert_eq!(signature, Some("cvrDo17JtNuPsQItSF0nd6/EIiTkMoZcwG4XvzaraVtzY8yGUktvzakL5h9LZOte/cwoRLVn87mUczziWu36PEEl7nCW23jOieOEAl+nv4tkYvv160ne/zcUjbRJYP6t9seb6FlfXuzRfgvxdEDmdnox0hLn+yZTiOsVWfCoSvRTroUbESxIHGQZOL7ubwN/0SnAxeP7TJpHqxs8lynY3/plpRDWekUwFu0E8ncKgSq8UqO5qPZoGSgiFJCb7zp7BlcWro7xbu6JYzHBVAn9WQC0zTal08WrvQ38U9GcTiGhy8EOl7/qAO85WAOashfPwW9GArhaXL2E/TvuLuOlcQ==".to_string()));
}

#[test]
fn test_extract_key_id_from_sig() {
    let signature = extract_key_id(SIG);
    assert_eq!(
        signature,
        Some("https://misskey.tinax.local/users/9qov6wdgdsq50001#main-key".to_string())
    );
}

#[test]
fn extract_from_header_without_parameters() {
    assert_eq!(extract_headers("algorithm=\"rsa-sha256\""), Vec::<String>::new());
    assert_eq!(extract_signature("keyId=\"k\""), None);
    assert_eq!(extract_key_id("signature=\"abc=\""), None);
}

#[test]
fn signature_header_is_read_back() {
    let header = signature_header_value(
        "https://example.com/user/1#main-key",
        "(request-target) content-type host date digest",
        "c2lnbmF0dXJl==",
    );
    assert_eq!(
        header,
        "keyId=\"https://example.com/user/1#main-key\",algorithm=\"rsa-sha256\",headers=\"(request-target) content-type host date digest\",signature=\"c2lnbmF0dXJl==\""
    );
    assert_eq!(
        extract_key_id(&header),
        Some("https://example.com/user/1#main-key".to_string())
    );
    assert_eq!(extract_signature(&header), Some("c2lnbmF0dXJl==".to_string()));
    assert_eq!(
        extract_headers(&header),
        vec!["(request-target)", "content-type", "host", "date", "digest"]
    );
    assert_eq!(authorization_header_value("x"), "Signature x");
}

#[test]
fn post_requests_must_sign_digest() {
    assert_eq!(required_signed_headers(Method::GET), vec!["(request-target)", "date", "host"]);
    assert_eq!(
        required_signed_headers(Method::POST),
        vec!["(request-target)", "date", "host", "digest"]
    );
    let signed: Vec<String> = vec!["(request-target)".into(), "date".into(), "host".into()];
    assert!(covers_required_headers(Method::GET, &signed));
    assert!(!covers_required_headers(Method::POST, &signed));
    assert_eq!(Method::DELETE.as_str(), "DELETE");
}

#[test]
fn signed_header_names_and_method_are_lowercased() {
    let headers = vec![
        ("date".to_string(), "Tue, 01 Jan 2030 00:00:00 GMT".to_string()),
        ("host".to_string(), "h.example".to_string()),
    ];
    let signed = vec!["(request-target)".to_string(), "Date".to_string(), "HOST".to_string()];
    let m = make_signed_message(&headers, Method::GET, "/x", &signed).unwrap();
    assert_eq!(m.message_to_sign, "(request-target): get /x\ndate: Tue, 01 Jan 2030 00:00:00 GMT\nhost: h.example");
    assert_eq!(m.headers, "(request-target) Date HOST");
}

#[test]
fn repeated_headers_are_joined_and_newlines_removed() {
    let headers = vec![
        ("date".to_string(), "a\nb".to_string()),
        ("host".to_string(), "h".to_string()),
    ];
    let signed = vec!["date".to_string(), "host".to_string(), "date".to_string()];
    let m = make_signed_message(&headers, Method::POST, "/", &signed).unwrap();
    assert_eq!(m.message_to_sign, "date: ab, ab\nhost: h");
    let missing = vec!["digest".to_string()];
    assert_eq!(make_signed_message(&headers, Method::POST, "/", &missing).unwrap_err().0, "digest");
}

#[test]
fn digest_header_is_sha256_in_base64() {
    assert_eq!(digest_header_value(b"{}"), "SHA-256=RBNvo1WzZ4oRRq0W9+hknpT7T8If536DEMBg9hyq/4o=");
}
