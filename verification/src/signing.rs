//! Signing outgoing requests and checking the signature of incoming ones
//! with RSA keys (PKCS#1 v1.5 over SHA-256).
use crate::ext::{all_lowercase_fixed, lowercase_fixed, base64_decoded, lowercased, base64_encoded, rsa_sha256_signature, rsa_sha256_verdict, rsa_sign, rsa_verify, sha256_of};
use crate::models::Method;
use crate::signature::{
    digest_header_value, grouped, header_lookup, header_pairs, lookup_header, make_signed_message,
    outgoing_signed_headers, plain_token, signature_headers, signed_message, signed_pairs,
    spec_outgoing_signed_headers, spec_required_headers, spec_signature_header, verification_of,
    lemma_signature_header_roundtrip, NotIncludedHeader, VerificationInput, VerifyError,
};
use crate::text::{free_of, join, str_eq, to_owned_string};
use crate::user_spec::{SpecifierView, UserSpecifier};
use vstd::prelude::*;

verus! {

/// The result of a signature check for each answer of the public key: a
/// valid signature is accepted; an invalid one is refused as not matching;
/// a key that cannot be read is a failure of its own.
pub fn verdict_outcome(verdict: Option<bool>) -> (r: Result<(), VerifyError>)
    ensures
        (verdict == Some(true)) <==> r is Ok,
        verdict == Some(false) ==> r matches Err(VerifyError::SignatureNotMatch),
        verdict is None ==> r matches Err(VerifyError::Other(_)),
{
    match verdict {
        Some(true) => Ok(()),
        Some(false) => Err(VerifyError::SignatureNotMatch),
        None => Err(VerifyError::Other(to_owned_string("the public key cannot be read"))),
    }
}

/// Checks a prepared request's signature with the public key (PEM) that its
/// key id names; a request whose signature holds comes from the key's owner.
pub fn verify_with_key(input: &VerificationInput, public_key_pem: &str, key_owner: u128) -> (r:
    Result<UserSpecifier, VerifyError>)
    ensures
        match rsa_sha256_verdict(public_key_pem@, input.message.message_to_sign@, input.signature@) {
            Some(true) => r matches Ok(u) && u@ == SpecifierView::ID(key_owner),
            Some(false) => r matches Err(VerifyError::SignatureNotMatch),
            None => r matches Err(VerifyError::Other(_)),
        },
{
    let verdict = rsa_verify(public_key_pem, input.message.message_to_sign.as_str(), input.signature.as_slice());
    match verdict_outcome(verdict) {
        Ok(()) => Ok(UserSpecifier::from_id(key_owner)),
        Err(e) => Err(e),
    }
}

/// The signature of a message with the private key in PKCS#8 PEM form;
/// `None` where the key cannot be used.
pub fn sign_message(message: &str, private_key_pem: &str) -> (r: Option<Vec<u8>>)
    ensures
        match r {
            Some(b) => rsa_sha256_signature(private_key_pem@, message@) == Some(b@),
            None => rsa_sha256_signature(private_key_pem@, message@) is None,
        },
{
    rsa_sign(private_key_pem, message)
}

/// The headers without any named `name`, the others kept in order.
pub open spec fn without_header(h: Seq<(Seq<char>, Seq<char>)>, name: Seq<char>) -> Seq<
    (Seq<char>, Seq<char>),
>
    decreases h.len(),
{
    if h.len() == 0 {
        h
    } else {
        let r = without_header(h.drop_last(), name);
        if h.last().0 == name {
            r
        } else {
            r.push(h.last())
        }
    }
}

/// The headers with `name` set to `value`: any earlier value is replaced.
pub open spec fn set_header(h: Seq<(Seq<char>, Seq<char>)>, name: Seq<char>, value: Seq<char>) -> Seq<
    (Seq<char>, Seq<char>),
> {
    without_header(h, name).push((name, value))
}

/// The headers with `name` added as `value` when the request has none.
pub open spec fn default_header(h: Seq<(Seq<char>, Seq<char>)>, name: Seq<char>, value: Seq<char>) -> Seq<
    (Seq<char>, Seq<char>),
> {
    if header_lookup(h, name) is None {
        h.push((name, value))
    } else {
        h
    }
}

/// The body's bytes (none when the request has no body).
pub open spec fn body_bytes(body: Option<&[u8]>) -> Seq<u8> {
    match body {
        Some(b) => b@,
        None => Seq::empty(),
    }
}

/// The headers of an outgoing request before its signature: a `host` and a
/// `date` when it has none, and for POST the body's `digest`.
pub open spec fn headers_to_sign(
    h: Seq<(Seq<char>, Seq<char>)>,
    method: Method,
    host: Seq<char>,
    date: Seq<char>,
    body: Seq<u8>,
) -> Seq<(Seq<char>, Seq<char>)> {
    let with_date = default_header(default_header(h, "host"@, host), "date"@, date);
    if method == Method::POST {
        set_header(with_date, "digest"@, "SHA-256="@ + base64_encoded(sha256_of(body)))
    } else {
        with_date
    }
}

/// Why an outgoing request could not be signed.
#[derive(Debug, Clone)]
pub enum AttachSignatureError {
    /// A header that must be signed is missing.
    NotIncludedHeader(NotIncludedHeader),
    /// The private key cannot be used.
    UnusableKey,
}

/// The headers of a request once it is signed with the key `key_id`
/// (private key in PKCS#8 PEM form): `host` and `date` are added where the
/// request has none (`host` is the URL's host, `date` the time of sending),
/// a POST carries the `digest` of its body, and the `signature` and
/// `authorization` headers carry the signature over the request target,
/// `content-type`, `host`, `date` and, for POST, `digest`. Header names are
/// lowercase.
pub fn attach_signature(
    key_id: &str,
    private_key_pem: &str,
    method: Method,
    url_path: &str,
    headers: &Vec<(String, String)>,
    host: &str,
    date: &str,
    body: Option<&[u8]>,
) -> (r: Result<Vec<(String, String)>, AttachSignatureError>)
    requires
        method == Method::POST ==> body is Some,
    ensures
        ({
            let h = headers_to_sign(header_pairs(headers@), method, host@, date@, body_bytes(body));
            match signed_pairs(spec_outgoing_signed_headers(method), method, url_path@, h) {
                Err(name) => r matches Err(AttachSignatureError::NotIncludedHeader(n)) && n.0@ == name,
                Ok(ps) => match rsa_sha256_signature(private_key_pem@, signed_message(grouped(ps))) {
                    None => r matches Err(AttachSignatureError::UnusableKey),
                    Some(sig) => r matches Ok(out) && {
                        let sh = spec_signature_header(
                            key_id@,
                            join(spec_outgoing_signed_headers(method), " "@),
                            base64_encoded(sig),
                        );
                        &&& header_pairs(out@) == set_header(
                            set_header(h, "signature"@, sh),
                            "authorization"@,
                            "Signature "@ + sh,
                        )
                        &&& plain_token(key_id@) ==> verification_of(
                            header_pairs(out@),
                            method,
                            url_path@,
                        ) == Some((signed_message(grouped(ps)), sig, key_id@))
                    },
                },
            }
        }),
{
    let mut h = add_if_missing(headers, "host", host);
    h = add_if_missing(&h, "date", date);
    if method == Method::POST {
        let b = match body {
            Some(b) => b,
            None => vstd::pervasive::unreached(),
        };
        let digest = digest_header_value(b);
        h = replace_header(&h, "digest", digest);
    }
    let signed = outgoing_signed_headers(method);
    let message = match make_signed_message(&h, method, url_path, &signed) {
        Ok(m) => m,
        Err(e) => return Err(AttachSignatureError::NotIncludedHeader(e)),
    };
    let sig = match sign_message(message.message_to_sign.as_str(), private_key_pem) {
        Some(s) => s,
        None => return Err(AttachSignatureError::UnusableKey),
    };
    let (signature, authorization) = signature_headers(key_id, &message, sig.as_slice());
    proof {
        if plain_token(key_id@) {
            let hs = header_pairs(h@);
            let ps = signed_pairs(spec_outgoing_signed_headers(method), method, url_path@, hs)->Ok_0;
            lemma_signed_request_verifies(hs, method, url_path@, key_id@, sig@, ps);
        }
    }
    let with_signature = replace_header(&h, "signature", signature);
    Ok(replace_header(&with_signature, "authorization", authorization))
}

/// Looking a name up after a header was added at the end: an earlier header
/// of that name wins; otherwise the added one, if it has that name.
proof fn lemma_lookup_push(s: Seq<(Seq<char>, Seq<char>)>, p: (Seq<char>, Seq<char>), n: Seq<char>)
    ensures
        header_lookup(s.push(p), n) == (match header_lookup(s, n) {
            Some(v) => Some(v),
            None => if p.0 == n {
                Some(p.1)
            } else {
                None
            },
        }),
    decreases s.len(),
{
    let t = s.push(p);
    if s.len() > 0 {
        assert(t[0] == s[0]);
        assert(t.drop_first() =~= s.drop_first().push(p));
        lemma_lookup_push(s.drop_first(), p, n);
    } else {
        assert(t[0] == p);
        assert(t.drop_first() =~= Seq::<(Seq<char>, Seq<char>)>::empty());
        assert(header_lookup(t.drop_first(), n) is None);
    }
}

/// Without the headers named `x`, a name other than `x` is found as before,
/// and `x` is not found.
proof fn lemma_lookup_without(s: Seq<(Seq<char>, Seq<char>)>, x: Seq<char>, n: Seq<char>)
    ensures
        header_lookup(without_header(s, x), n) == (if n == x {
            None
        } else {
            header_lookup(s, n)
        }),
    decreases s.len(),
{
    if s.len() > 0 {
        let init = s.drop_last();
        lemma_lookup_without(init, x, n);
        assert(s =~= init.push(s.last()));
        lemma_lookup_push(init, s.last(), n);
        if s.last().0 != x {
            lemma_lookup_push(without_header(init, x), s.last(), n);
        }
    }
}

/// After `x` is set to `v`, `x` is found as `v` and every other name as before.
proof fn lemma_lookup_set(s: Seq<(Seq<char>, Seq<char>)>, x: Seq<char>, v: Seq<char>, n: Seq<char>)
    ensures
        header_lookup(set_header(s, x, v), n) == (if n == x {
            Some(v)
        } else {
            header_lookup(s, n)
        }),
{
    lemma_lookup_without(s, x, n);
    lemma_lookup_push(without_header(s, x), (x, v), n);
}

/// Two header lists that agree on every (lowercased) signed name give the
/// same signed pairs.
proof fn lemma_signed_pairs_agree(
    signed: Seq<Seq<char>>,
    method: Method,
    url_path: Seq<char>,
    a: Seq<(Seq<char>, Seq<char>)>,
    b: Seq<(Seq<char>, Seq<char>)>,
)
    requires
        forall|i: int|
            0 <= i < signed.len() ==> header_lookup(a, lowercased(#[trigger] signed[i]))
                == header_lookup(b, lowercased(signed[i])),
    ensures
        signed_pairs(signed, method, url_path, a) == signed_pairs(signed, method, url_path, b),
    decreases signed.len(),
{
    if signed.len() > 0 {
        let init = signed.drop_last();
        assert forall|i: int| 0 <= i < init.len() implies header_lookup(a, lowercased(#[trigger] init[i]))
            == header_lookup(b, lowercased(init[i])) by {
            assert(init[i] == signed[i]);
        }
        lemma_signed_pairs_agree(init, method, url_path, a, b);
        assert(signed.last() == signed[signed.len() - 1]);
    }
}

/// The headers an outgoing request signs are plain names that lowercasing
/// keeps, none of them `signature` or `authorization`, and they cover what a
/// verifier requires.
proof fn lemma_outgoing_names(method: Method)
    ensures
        spec_outgoing_signed_headers(method).len() > 0,
        forall|i: int|
            0 <= i < spec_outgoing_signed_headers(method).len() ==> {
                let n = #[trigger] spec_outgoing_signed_headers(method)[i];
                &&& plain_token(n)
                &&& all_lowercase_fixed(n)
                &&& n != "signature"@
                &&& n != "authorization"@
            },
        forall|i: int|
            0 <= i < spec_required_headers(method).len() ==> spec_outgoing_signed_headers(
                method,
            ).contains(#[trigger] spec_required_headers(method)[i]),
{
    reveal_strlit("(request-target)");
    reveal_strlit("content-type");
    reveal_strlit("host");
    reveal_strlit("date");
    reveal_strlit("digest");
    reveal_strlit("signature");
    reveal_strlit("authorization");
    let l = spec_outgoing_signed_headers(method);
    assert forall|i: int| 0 <= i < l.len() implies {
        let n = #[trigger] l[i];
        &&& plain_token(n)
        &&& all_lowercase_fixed(n)
        &&& n != "signature"@
        &&& n != "authorization"@
    } by {
        let n = l[i];
        assert(n.len() != 9 && n.len() != 13);
        assert forall|k: int| 0 <= k < n.len() implies lowercase_fixed(#[trigger] n[k]) && n[k] != ' '
            && n[k] != ',' && n[k] != '=' && n[k] != '"' by {}
    }
    let req = spec_required_headers(method);
    assert forall|i: int| 0 <= i < req.len() implies l.contains(#[trigger] req[i]) by {
        if i == 0 {
            assert(l[0] == req[i]);
        } else if i == 1 {
            assert(l[3] == req[i]);
        } else if i == 2 {
            assert(l[2] == req[i]);
        } else {
            assert(l[4] == req[i]);
        }
    }
}

/// A request signed over `hs` with the outgoing header list passes the
/// verifier's reading of its `Signature` header: the same message, the same
/// signature bytes and the same key id come back.
proof fn lemma_signed_request_verifies(
    hs: Seq<(Seq<char>, Seq<char>)>,
    method: Method,
    url_path: Seq<char>,
    key_id: Seq<char>,
    sig: Seq<u8>,
    ps: Seq<(Seq<char>, Seq<char>)>,
)
    requires
        plain_token(key_id),
        signed_pairs(spec_outgoing_signed_headers(method), method, url_path, hs) == Ok::<
            Seq<(Seq<char>, Seq<char>)>,
            Seq<char>,
        >(ps),
        forall|i: int|
            0 <= i < spec_outgoing_signed_headers(method).len() && all_lowercase_fixed(
                #[trigger] spec_outgoing_signed_headers(method)[i],
            ) ==> lowercased(spec_outgoing_signed_headers(method)[i])
                == spec_outgoing_signed_headers(method)[i],
        base64_decoded(base64_encoded(sig)) == Some(sig),
        free_of(base64_encoded(sig), ','),
        free_of(base64_encoded(sig), '"'),
    ensures
        ({
            let l = spec_outgoing_signed_headers(method);
            let sh = spec_signature_header(key_id, join(l, " "@), base64_encoded(sig));
            verification_of(
                set_header(set_header(hs, "signature"@, sh), "authorization"@, "Signature "@ + sh),
                method,
                url_path,
            ) == Some((signed_message(grouped(ps)), sig, key_id))
        }),
{
    reveal_strlit("signature");
    reveal_strlit("authorization");
    let l = spec_outgoing_signed_headers(method);
    let b64 = base64_encoded(sig);
    let sh = spec_signature_header(key_id, join(l, " "@), b64);
    let s1 = set_header(hs, "signature"@, sh);
    let out = set_header(s1, "authorization"@, "Signature "@ + sh);
    lemma_outgoing_names(method);
    assert("signature"@ != "authorization"@);
    lemma_lookup_set(s1, "authorization"@, "Signature "@ + sh, "signature"@);
    lemma_lookup_set(hs, "signature"@, sh, "signature"@);
    assert(header_lookup(out, "signature"@) == Some(sh));
    lemma_signature_header_roundtrip(key_id, l, b64);
    assert forall|i: int| 0 <= i < l.len() implies header_lookup(out, lowercased(#[trigger] l[i]))
        == header_lookup(hs, lowercased(l[i])) by {
        let n = l[i];
        lemma_lookup_set(s1, "authorization"@, "Signature "@ + sh, n);
        lemma_lookup_set(hs, "signature"@, sh, n);
    }
    lemma_signed_pairs_agree(l, method, url_path, out, hs);
}

/// Adding a pair at the end of a header list adds its view at the end.
proof fn lemma_header_pairs_push(h: Seq<(String, String)>, p: (String, String))
    ensures
        header_pairs(h.push(p)) == header_pairs(h).push((p.0@, p.1@)),
{
    assert(header_pairs(h.push(p)) =~= header_pairs(h).push((p.0@, p.1@)));
}

/// A copy of the headers with `name` added as `value` when none is there.
fn add_if_missing(headers: &Vec<(String, String)>, name: &str, value: &str) -> (r: Vec<
    (String, String),
>)
    ensures
        header_pairs(r@) == default_header(header_pairs(headers@), name@, value@),
{
    let missing = lookup_header(headers, name).is_none();
    let mut out = copy_headers(headers);
    if missing {
        let p = (to_owned_string(name), to_owned_string(value));
        proof {
            lemma_header_pairs_push(out@, p);
        }
        out.push(p);
    }
    out
}

/// A copy of the headers.
fn copy_headers(headers: &Vec<(String, String)>) -> (r: Vec<(String, String)>)
    ensures
        header_pairs(r@) == header_pairs(headers@),
{
    let mut out: Vec<(String, String)> = Vec::new();
    let mut i: usize = 0;
    while i < headers.len()
        invariant
            i <= headers@.len(),
            header_pairs(out@) == header_pairs(headers@.subrange(0, i as int)),
        decreases headers.len() - i,
    {
        let p = (headers[i].0.clone(), headers[i].1.clone());
        proof {
            lemma_header_pairs_push(out@, p);
            assert(headers@.subrange(0, i + 1) =~= headers@.subrange(0, i as int).push(headers@[i as int]));
            lemma_header_pairs_push(headers@.subrange(0, i as int), headers@[i as int]);
        }
        out.push(p);
        i = i + 1;
    }
    assert(headers@.subrange(0, headers@.len() as int) =~= headers@);
    out
}

/// A copy of the headers with `name` set to `value`, replacing any earlier value.
fn replace_header(headers: &Vec<(String, String)>, name: &str, value: String) -> (r: Vec<
    (String, String),
>)
    ensures
        header_pairs(r@) == set_header(header_pairs(headers@), name@, value@),
{
    let mut out: Vec<(String, String)> = Vec::new();
    let mut i: usize = 0;
    while i < headers.len()
        invariant
            i <= headers@.len(),
            header_pairs(out@) == without_header(header_pairs(headers@.subrange(0, i as int)), name@),
        decreases headers.len() - i,
    {
        let ghost pre = headers@.subrange(0, i as int);
        let ghost post = headers@.subrange(0, i + 1);
        proof {
            assert(post =~= pre.push(headers@[i as int]));
            lemma_header_pairs_push(pre, headers@[i as int]);
            assert(header_pairs(post).drop_last() =~= header_pairs(pre));
        }
        if !str_eq(headers[i].0.as_str(), name) {
            let p = (headers[i].0.clone(), headers[i].1.clone());
            proof {
                lemma_header_pairs_push(out@, p);
            }
            out.push(p);
        }
        i = i + 1;
    }
    assert(headers@.subrange(0, headers@.len() as int) =~= headers@);
    let p = (to_owned_string(name), value);
    proof {
        lemma_header_pairs_push(out@, p);
    }
    out.push(p);
    out
}

} // verus!
