//! The wrappers through which the library calls outside crates.
use base64::Engine;
use rsa::pkcs8::{DecodePrivateKey, DecodePublicKey};
use rsa::sha2::Digest;
use rsa::signature::{SignatureEncoding, Signer, Verifier};
use rand::Rng;
use vstd::prelude::*;

verus! {

/// What `uuid::Uuid::parse_str` makes of a string: the UUID's 128-bit value,
/// or `None` where it reports an error.
pub uninterp spec fn uuid_parsed(s: Seq<char>) -> Option<u128>;

/// The lowercase hex digit of a value below 16.
pub open spec fn hex_digit(n: u128) -> char {
    if n < 10 {
        (n + 48) as char
    } else {
        (n + 87) as char
    }
}

/// The text that `uuid::Uuid::simple` prints for a value: its 32 hex digits,
/// lowercase, most significant first.
pub open spec fn uuid_simple_text(id: u128) -> Seq<char> {
    Seq::new(32, |i: int| hex_digit((id >> ((4 * (31 - i)) as u128)) & 0xfu128))
}

/// The hyphenated form that `uuid::Uuid`'s `Display` prints for a value.
pub uninterp spec fn uuid_hyphenated_text(id: u128) -> Seq<char>;

/// What `bcrypt::verify` reports for a password and a stored hash: whether
/// they match, or `None` where it returns an error (a malformed hash).
pub uninterp spec fn bcrypt_verify_outcome(password: Seq<char>, hash: Seq<char>) -> Option<bool>;

/// `bcrypt::hash` at `bcrypt::DEFAULT_COST`. The salt is drawn at random, so
/// only this is promised: a hash that is returned verifies against the
/// password it was made from (`verify` rehashes the password with the salt
/// stored in the hash and compares).
#[verifier::external_body]
pub(crate) fn bcrypt_hash(password: &str) -> (r: Option<String>)
    ensures
        r matches Some(h) ==> bcrypt_verify_outcome(password@, h@) == Some(true),
{
    bcrypt::hash(password, bcrypt::DEFAULT_COST).ok()
}

/// `bcrypt::verify`: whether the password matches the hash, `None` on error.
#[verifier::external_body]
pub(crate) fn bcrypt_verify(password: &str, hash: &str) -> (r: Option<bool>)
    ensures
        r == bcrypt_verify_outcome(password@, hash@),
{
    bcrypt::verify(password, hash).ok()
}

/// What `urlencoding::decode` makes of a percent-encoded string, or `None`
/// where the decoded bytes are not UTF-8.
pub uninterp spec fn url_decoded(s: Seq<char>) -> Option<Seq<char>>;

/// `urlencoding::decode`. Its source returns a string without `%` unchanged.
#[verifier::external_body]
pub(crate) fn url_decode(s: &str) -> (r: Option<String>)
    ensures
        crate::ids::opt_view(r) == url_decoded(s@),
        !s@.contains('%') ==> crate::ids::opt_view(r) == Some(s@),
{
    match urlencoding::decode(s) {
        Ok(d) => Some(d.into_owned()),
        Err(_) => None,
    }
}

/// A random token of 64 characters drawn by `rand`'s `Alphanumeric`
/// distribution from the operating system's generator (`OsRng`); each
/// character is an ASCII letter or digit.
#[verifier::external_body]
pub(crate) fn random_alphanumeric_token() -> (r: String)
    ensures
        r@.len() == 64,
        forall|i: int| 0 <= i < 64 ==> crate::text::is_ascii_alnum(#[trigger] r@[i]),
{
    rand::rngs::OsRng.sample_iter(&rand::distributions::Alphanumeric).take(64).map(char::from).collect()
}

/// The text of each node that `scraper::Html::parse_fragment` builds for an
/// HTML fragment, in the order of its tree's node list: `Some` for a text
/// node, `None` for any other node.
pub uninterp spec fn html_fragment_texts(html: Seq<char>) -> Seq<Option<Seq<char>>>;

/// The text of an optional string.
pub open spec fn opt_texts(v: Seq<Option<String>>) -> Seq<Option<Seq<char>>> {
    v.map_values(|o: Option<String>| crate::ids::opt_view(o))
}

/// `scraper::Html::parse_fragment`, its node list read in order.
#[verifier::external_body]
pub(crate) fn html_fragment_nodes(html: &str) -> (r: Vec<Option<String>>)
    ensures
        opt_texts(r@) == html_fragment_texts(html@),
{
    scraper::Html::parse_fragment(html).tree.into_iter().map(|node| match node {
        scraper::Node::Text(t) => Some(t.to_string()),
        scraper::Node::Document => None,
        scraper::Node::Fragment => None,
        scraper::Node::Doctype(_) => None,
        scraper::Node::Comment(_) => None,
        scraper::Node::Element(_) => None,
        scraper::Node::ProcessingInstruction(_) => None,
    }).collect()
}

/// `linked_hash_map::LinkedHashMap`, carried opaquely.
#[verifier::external_type_specification]
#[verifier::external_body]
#[verifier::reject_recursive_types(K)]
#[verifier::reject_recursive_types(V)]
#[verifier::reject_recursive_types(S)]
pub struct ExLinkedHashMap<K, V, S>(linked_hash_map::LinkedHashMap<K, V, S>);

/// The grouped header lines held by a `linked_hash_map::LinkedHashMap`
/// from header name to values: its entries in iteration order, which is the
/// order in which the keys were first inserted.
pub uninterp spec fn header_groups(m: linked_hash_map::LinkedHashMap<String, Vec<String>>) -> Seq<
    (Seq<char>, Seq<Seq<char>>),
>;

/// Index of the entry with key `k`, or -1.
pub open spec fn key_position(entries: Seq<(Seq<char>, Seq<Seq<char>>)>, k: Seq<char>) -> int
    decreases entries.len(),
{
    if entries.len() == 0 {
        -1
    } else if entries[0].0 == k {
        0
    } else {
        let i = key_position(entries.drop_first(), k);
        if i < 0 {
            -1
        } else {
            i + 1
        }
    }
}

/// `LinkedHashMap::new`: an empty map.
#[verifier::external_body]
pub(crate) fn header_map_new() -> (r: linked_hash_map::LinkedHashMap<String, Vec<String>>)
    ensures
        header_groups(r) == Seq::<(Seq<char>, Seq<Seq<char>>)>::empty(),
{
    linked_hash_map::LinkedHashMap::new()
}

/// `LinkedHashMap::contains_key`.
#[verifier::external_body]
pub(crate) fn header_map_contains(m: &linked_hash_map::LinkedHashMap<String, Vec<String>>, k: &str) -> (r: bool)
    ensures
        r == (key_position(header_groups(*m), k@) >= 0),
{
    m.contains_key(k)
}

/// `LinkedHashMap::get_mut` on a present key, and `Vec::push` on its values:
/// the value is appended to that key's values; the order of keys is kept.
#[verifier::external_body]
pub(crate) fn header_map_push(
    m: &mut linked_hash_map::LinkedHashMap<String, Vec<String>>,
    k: &str,
    v: String,
)
    requires
        key_position(header_groups(*old(m)), k@) >= 0,
    ensures
        header_groups(*final(m)) == header_groups(*old(m)).update(
            key_position(header_groups(*old(m)), k@),
            (k@, header_groups(*old(m))[key_position(header_groups(*old(m)), k@)].1.push(v@)),
        ),
{
    match m.get_mut(k) {
        Some(values) => values.push(v),
        None => {},
    }
}

/// `LinkedHashMap::insert` of a key that is not present: the entry is added
/// last in iteration order.
#[verifier::external_body]
pub(crate) fn header_map_insert(
    m: &mut linked_hash_map::LinkedHashMap<String, Vec<String>>,
    k: String,
    v: Vec<String>,
)
    requires
        key_position(header_groups(*old(m)), k@) < 0,
    ensures
        header_groups(*final(m)) == header_groups(*old(m)).push((k@, crate::text::views(v@))),
{
    m.insert(k, v);
}

/// `LinkedHashMap::iter`, each entry copied, in iteration order.
#[verifier::external_body]
pub(crate) fn header_map_entries(m: &linked_hash_map::LinkedHashMap<String, Vec<String>>) -> (r: Vec<(String, Vec<String>)>)
    ensures
        r@.map_values(|e: (String, Vec<String>)| (e.0@, crate::text::views(e.1@))) == header_groups(*m),
{
    m.iter().map(|(k, v)| (k.clone(), v.clone())).collect()
}

/// What `str::to_lowercase` makes of a string.
pub uninterp spec fn lowercased(s: Seq<char>) -> Seq<char>;

/// A character that lowercasing leaves as it is: an ASCII character that is
/// not an uppercase letter.
pub open spec fn lowercase_fixed(c: char) -> bool {
    (c as u32) < 128 && !('A' <= c && c <= 'Z')
}

/// Text made only of characters that lowercasing leaves as they are.
pub open spec fn all_lowercase_fixed(s: Seq<char>) -> bool {
    forall|k: int| 0 <= k < s.len() ==> lowercase_fixed(#[trigger] s[k])
}

/// `str::to_lowercase`. Text of ASCII characters other than uppercase
/// letters is returned as it is (Unicode maps each of them to itself).
#[verifier::external_body]
pub(crate) fn to_lowercase(s: &str) -> (r: String)
    ensures
        r@ == lowercased(s@),
        all_lowercase_fixed(s@) ==> r@ == s@,
{
    s.to_lowercase()
}

/// The bytes that `base64`'s standard engine decodes from a string, or
/// `None` where it reports an error.
pub uninterp spec fn base64_decoded(s: Seq<char>) -> Option<Seq<u8>>;

/// `BASE64_STANDARD.decode`.
#[verifier::external_body]
pub(crate) fn base64_decode(s: &str) -> (r: Option<Vec<u8>>)
    ensures
        match r {
            Some(b) => base64_decoded(s@) == Some(b@),
            None => base64_decoded(s@) is None,
        },
{
    base64::prelude::BASE64_STANDARD.decode(s.as_bytes()).ok()
}

/// The text that `base64`'s standard engine encodes bytes as.
pub uninterp spec fn base64_encoded(b: Seq<u8>) -> Seq<char>;

/// A character of the standard base64 alphabet, padding included.
pub open spec fn base64_char(c: char) -> bool {
    ('A' <= c && c <= 'Z') || ('a' <= c && c <= 'z') || ('0' <= c && c <= '9') || c == '+' || c
        == '/' || c == '='
}

/// `BASE64_STANDARD.encode`: the text is made of the standard alphabet and
/// `=` padding, and the standard engine decodes it back to the same bytes.
#[verifier::external_body]
pub(crate) fn base64_encode(b: &[u8]) -> (r: String)
    ensures
        r@ == base64_encoded(b@),
        forall|i: int| 0 <= i < r@.len() ==> base64_char(#[trigger] r@[i]),
        base64_decoded(r@) == Some(b@),
{
    base64::prelude::BASE64_STANDARD.encode(b)
}

/// The SHA-256 digest of bytes (`rsa::sha2::Sha256`).
pub uninterp spec fn sha256_of(b: Seq<u8>) -> Seq<u8>;

/// `Sha256::digest`: the 32-byte SHA-256 digest.
#[verifier::external_body]
pub(crate) fn sha256(b: &[u8]) -> (r: Vec<u8>)
    ensures
        r@ == sha256_of(b@),
{
    rsa::sha2::Sha256::digest(b).to_vec()
}

/// The signature that `rsa`'s PKCS#1 v1.5 signer over SHA-256 makes of the
/// UTF-8 bytes of `message` with the private key written in PKCS#8 PEM form,
/// or `None` where the key cannot be read or the signer reports an error.
/// The signer draws no randomness, so the signature depends on these alone.
pub uninterp spec fn rsa_sha256_signature(private_pem: Seq<char>, message: Seq<char>) -> Option<Seq<u8>>;

/// `RsaPrivateKey::from_pkcs8_pem`, then `pkcs1v15::SigningKey::<Sha256>::try_sign`.
#[verifier::external_body]
pub(crate) fn rsa_sign(private_pem: &str, message: &str) -> (r: Option<Vec<u8>>)
    ensures
        match r {
            Some(b) => rsa_sha256_signature(private_pem@, message@) == Some(b@),
            None => rsa_sha256_signature(private_pem@, message@) is None,
        },
{
    let key = match rsa::RsaPrivateKey::from_pkcs8_pem(private_pem) {
        Ok(k) => k,
        Err(_) => return None,
    };
    match rsa::pkcs1v15::SigningKey::<rsa::sha2::Sha256>::new(key).try_sign(message.as_bytes()) {
        Ok(sig) => Some(sig.to_vec()),
        Err(_) => None,
    }
}

/// What `rsa`'s PKCS#1 v1.5 verifier over SHA-256 decides of `signature` on
/// the UTF-8 bytes of `message`, with the public key written in PEM form
/// (SubjectPublicKeyInfo): whether the signature is valid, or `None` where the
/// key or the signature bytes cannot be read.
pub uninterp spec fn rsa_sha256_verdict(public_pem: Seq<char>, message: Seq<char>, signature: Seq<u8>) -> Option<bool>;

/// `RsaPublicKey::from_public_key_pem`, then `pkcs1v15::VerifyingKey::<Sha256>::verify`.
#[verifier::external_body]
pub(crate) fn rsa_verify(public_pem: &str, message: &str, signature: &[u8]) -> (r: Option<bool>)
    ensures
        r == rsa_sha256_verdict(public_pem@, message@, signature@),
{
    let key = match rsa::RsaPublicKey::from_public_key_pem(public_pem) {
        Ok(k) => k,
        Err(_) => return None,
    };
    let sig = match rsa::pkcs1v15::Signature::try_from(signature) {
        Ok(s) => s,
        Err(_) => return None,
    };
    Some(rsa::pkcs1v15::VerifyingKey::<rsa::sha2::Sha256>::new(key).verify(message.as_bytes(), &sig).is_ok())
}

/// The current time as milliseconds since the Unix epoch
/// (`chrono::Utc::now`); nothing is promised of its value.
#[verifier::external_body]
pub(crate) fn utc_now_millis() -> i64 {
    chrono::Utc::now().timestamp_millis()
}

/// `uuid::Uuid::parse_str`: the parsed value, or `None` on a parse error.
#[verifier::external_body]
pub(crate) fn parse_uuid(s: &str) -> (r: Option<u128>)
    ensures
        r == uuid_parsed(s@),
{
    match uuid::Uuid::parse_str(s) {
        Ok(u) => Some(u.as_u128()),
        Err(_) => None,
    }
}

/// `uuid::Uuid::simple` printed: the value as 32 hex digits. `parse_str`
/// accepts that form and reads back the same value.
#[verifier::external_body]
pub(crate) fn uuid_simple_string(id: u128) -> (r: String)
    ensures
        r@ == uuid_simple_text(id),
        uuid_parsed(r@) == Some(id),
{
    uuid::Uuid::from_u128(id).simple().to_string()
}

/// `uuid::Uuid` printed in its hyphenated form.
#[verifier::external_body]
pub(crate) fn uuid_hyphenated_string(id: u128) -> (r: String)
    ensures
        r@ == uuid_hyphenated_text(id),
{
    uuid::Uuid::from_u128(id).hyphenated().to_string()
}

/// The version number of a UUID's 128-bit value (its 13th hex digit).
pub open spec fn uuid_version(id: u128) -> u128 {
    (id >> 76u128) & 0xfu128
}

/// Whether a UUID's 128-bit value carries the RFC 4122 / RFC 9562 variant
/// (the two bits `10` at the start of its 17th hex digit).
pub open spec fn uuid_rfc_variant(id: u128) -> bool {
    (id >> 62u128) & 0x3u128 == 2u128
}

/// `uuid::Uuid::now_v7`: a fresh time-ordered UUID. Its timestamp and random
/// bits depend on the clock and on chance; its source sets the version
/// digit to 7 and the RFC variant bits, and only that is promised.
#[verifier::external_body]
pub(crate) fn uuid_now_v7() -> (r: u128)
    ensures
        uuid_version(r) == 7,
        uuid_rfc_variant(r),
{
    uuid::Uuid::now_v7().as_u128()
}

/// `uuid::Uuid::new_v4`: a fresh random UUID. Its random bits depend on
/// chance; its source sets the version digit to 4 and the RFC variant bits,
/// and only that is promised.
#[verifier::external_body]
pub(crate) fn uuid_new_v4() -> (r: u128)
    ensures
        uuid_version(r) == 4,
        uuid_rfc_variant(r),
{
    uuid::Uuid::new_v4().as_u128()
}

} // verus!
