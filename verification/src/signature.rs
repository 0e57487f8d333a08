//! HTTP Signatures: reading the `Signature` header and choosing which headers
//! a request must sign.
use crate::ext::{
    all_lowercase_fixed, base64_decode, base64_decoded, base64_encode, base64_encoded, sha256, sha256_of, header_groups, header_map_contains, header_map_entries,
    header_map_insert, header_map_new, header_map_push, key_position, lowercased, to_lowercase,
};
use crate::models::{method_name, Method};
use crate::text::{char_index, concat, find_char, free_of, join, lemma_split_concat, lemma_split_free, push_char, str_eq, trim_end, lemma_trim_start, lemma_trim_end, lemma_char_index, find_prefixed, has_prefix, lemma_split_two, split, split_char, starts_with, substring, to_owned_string, trim_matches, trim_matches_char, views, contains_string};
use vstd::prelude::*;

verus! {

/// Why a signed request was refused.
#[derive(Debug)]
pub enum VerifyError {
    SignatureNotFound,
    SignatureInvalid,
    SignatureNotMatch,
    KeyNotFound,
    InsufficientHeader,
    Other(String),
}

/// The comma-separated parameter of `sig` that begins with `name`, if any.
pub open spec fn signature_param(sig: Seq<char>, name: Seq<char>) -> Option<Seq<char>> {
    find_prefixed(split(sig, ','), name)
}

/// The header names listed in the `headers="..."` parameter; empty when the
/// parameter is absent.
pub open spec fn spec_extract_headers(sig: Seq<char>) -> Seq<Seq<char>> {
    match signature_param(sig, "headers="@) {
        Some(p) => split(trim_matches(split(p, '=')[1], '"'), ' '),
        None => Seq::empty(),
    }
}

/// The value of the `signature="..."` parameter: everything after its first
/// `=`, with quotes trimmed.
pub open spec fn spec_extract_signature(sig: Seq<char>) -> Option<Seq<char>> {
    match signature_param(sig, "signature="@) {
        Some(p) => Some(
            trim_matches(p.subrange(char_index(p, '=') + 1, p.len() as int), '"'),
        ),
        None => None,
    }
}

/// The value of the `keyId="..."` parameter: the text between its first and
/// second `=`, with quotes trimmed.
pub open spec fn spec_extract_key_id(sig: Seq<char>) -> Option<Seq<char>> {
    match signature_param(sig, "keyId="@) {
        Some(p) => Some(trim_matches(split(p, '=')[1], '"')),
        None => None,
    }
}

/// Index of the first of `parts` that begins with `p`.
fn find_prefixed_index(parts: &Vec<String>, p: &str) -> (r: Option<usize>)
    ensures
        match r {
            Some(i) => i < parts@.len() && find_prefixed(views(parts@), p@) == Some(
                parts@[i as int]@,
            ) && has_prefix(parts@[i as int]@, p@),
            None => find_prefixed(views(parts@), p@) is None,
        },
{
    let mut i: usize = 0;
    assert(views(parts@).subrange(0, parts@.len() as int) =~= views(parts@));
    while i < parts.len()
        invariant
            i <= parts@.len(),
            find_prefixed(views(parts@), p@) == find_prefixed(
                views(parts@).subrange(i as int, parts@.len() as int),
                p@,
            ),
        decreases parts.len() - i,
    {
        let ghost rest = views(parts@).subrange(i as int, parts@.len() as int);
        assert(rest[0] == parts@[i as int]@);
        if starts_with(parts[i].as_str(), p) {
            return Some(i);
        }
        assert(rest.drop_first() =~= views(parts@).subrange(i + 1, parts@.len() as int));
        i = i + 1;
    }
    assert(views(parts@).subrange(i as int, parts@.len() as int).len() == 0);
    None
}

/// A parameter that begins with `name=` splits on `=` into at least two pieces.
proof fn lemma_param_has_value(p: Seq<char>, name: Seq<char>)
    requires
        has_prefix(p, name),
        name.len() > 0,
        name.last() == '=',
    ensures
        split(p, '=').len() >= 2,
        0 <= char_index(p, '=') < p.len(),
{
    assert(p[name.len() - 1] == '=') by {
        assert(p.subrange(0, name.len() as int)[name.len() - 1] == name[name.len() - 1]);
    }
    lemma_split_two(p, name.len() - 1, '=');
    lemma_char_index_found(p, name.len() - 1);
}

proof fn lemma_char_index_found(p: Seq<char>, k: int)
    requires
        0 <= k < p.len(),
        p[k] == '=',
    ensures
        0 <= char_index(p, '=') < p.len(),
    decreases p.len(),
{
    if p[0] != '=' {
        lemma_char_index_found(p.drop_first(), k - 1);
    }
}

/// The header names that the `Signature` header says were signed.
pub fn extract_headers(signature_header: &str) -> (r: Vec<String>)
    ensures
        views(r@) == spec_extract_headers(signature_header@),
{
    let parts = split_char(signature_header, ',');
    match find_prefixed_index(&parts, "headers=") {
        Some(i) => {
            let part = parts[i].as_str();
            let pieces = split_char(part, '=');
            proof {
                reveal_strlit("headers=");
                lemma_param_has_value(part@, "headers="@);
            }
            assert(views(pieces@)[1] == pieces@[1]@);
            let value = trim_matches_char(pieces[1].as_str(), '"');
            split_char(value.as_str(), ' ')
        },
        None => Vec::new(),
    }
}

/// The base64 signature carried by the `Signature` header.
pub fn extract_signature(signature_header: &str) -> (r: Option<String>)
    ensures
        match r {
            Some(v) => spec_extract_signature(signature_header@) == Some(v@),
            None => spec_extract_signature(signature_header@) is None,
        },
{
    let parts = split_char(signature_header, ',');
    match find_prefixed_index(&parts, "signature=") {
        Some(i) => {
            let part = parts[i].as_str();
            proof {
                reveal_strlit("signature=");
                lemma_param_has_value(part@, "signature="@);
            }
            match find_char(part, '=') {
                Some(k) => {
                    let n = part.unicode_len();
                    let rest = substring(part, k + 1, n);
                    Some(trim_matches_char(rest.as_str(), '"'))
                },
                None => None,
            }
        },
        None => None,
    }
}

/// The key id carried by the `Signature` header.
pub fn extract_key_id(signature_header: &str) -> (r: Option<String>)
    ensures
        match r {
            Some(v) => spec_extract_key_id(signature_header@) == Some(v@),
            None => spec_extract_key_id(signature_header@) is None,
        },
{
    let parts = split_char(signature_header, ',');
    match find_prefixed_index(&parts, "keyId=") {
        Some(i) => {
            let part = parts[i].as_str();
            let pieces = split_char(part, '=');
            proof {
                reveal_strlit("keyId=");
                lemma_param_has_value(part@, "keyId="@);
            }
            assert(views(pieces@)[1] == pieces@[1]@);
            Some(trim_matches_char(pieces[1].as_str(), '"'))
        },
        None => None,
    }
}

/// The headers that every signed request must cover: the request target,
/// `date` and `host`, and `digest` as well for POST.
pub open spec fn spec_required_headers(method: Method) -> Seq<Seq<char>> {
    if method == Method::POST {
        seq!["(request-target)"@, "date"@, "host"@, "digest"@]
    } else {
        seq!["(request-target)"@, "date"@, "host"@]
    }
}

/// The headers that a signature on a request with `method` must cover.
pub fn required_signed_headers(method: Method) -> (r: Vec<String>)
    ensures
        views(r@) == spec_required_headers(method),
{
    let mut v: Vec<String> = Vec::new();
    v.push(to_owned_string("(request-target)"));
    v.push(to_owned_string("date"));
    v.push(to_owned_string("host"));
    if method == Method::POST {
        v.push(to_owned_string("digest"));
    }
    assert(views(v@) =~= spec_required_headers(method));
    v
}

/// Whether the signed header list covers every header that `method` requires.
pub fn covers_required_headers(method: Method, signed_headers: &Vec<String>) -> (r: bool)
    ensures
        r == (forall|i: int|
            0 <= i < spec_required_headers(method).len() ==> views(signed_headers@).contains(
                #[trigger] spec_required_headers(method)[i],
            )),
{
    let required = required_signed_headers(method);
    let mut i: usize = 0;
    while i < required.len()
        invariant
            i <= required@.len(),
            views(required@) == spec_required_headers(method),
            forall|j: int|
                0 <= j < i ==> views(signed_headers@).contains(
                    #[trigger] spec_required_headers(method)[j],
                ),
        decreases required.len() - i,
    {
        assert(views(required@)[i as int] == required@[i as int]@);
        if !contains_string(signed_headers, required[i].as_str()) {
            return false;
        }
        i = i + 1;
    }
    true
}

/// One parameter of the `Signature` header: `name="value"`.
pub open spec fn quoted_param(name: Seq<char>, value: Seq<char>) -> Seq<char> {
    name + "=\""@ + value + "\""@
}

/// The `Signature` header value: key id, algorithm, the signed header names
/// and the base64 signature, as comma-separated quoted parameters.
pub open spec fn spec_signature_header(
    key_id: Seq<char>,
    headers: Seq<char>,
    signature: Seq<char>,
) -> Seq<char> {
    join(
        seq![
            quoted_param("keyId"@, key_id),
            quoted_param("algorithm"@, "rsa-sha256"@),
            quoted_param("headers"@, headers),
            quoted_param("signature"@, signature),
        ],
        ","@,
    )
}

/// `name="value"`.
fn quoted_param_text(name: &str, value: &str) -> (r: String)
    ensures
        r@ == quoted_param(name@, value@),
{
    let mut s = concat(name, "=\"");
    s.append(value);
    s.append("\"");
    s
}

/// Formats the `Signature` header that accompanies a signed request.
pub fn signature_header_value(key_id: &str, headers: &str, signature: &str) -> (r: String)
    ensures
        r@ == spec_signature_header(key_id@, headers@, signature@),
{
    let mut params: Vec<String> = Vec::new();
    params.push(quoted_param_text("keyId", key_id));
    params.push(quoted_param_text("algorithm", "rsa-sha256"));
    params.push(quoted_param_text("headers", headers));
    params.push(quoted_param_text("signature", signature));
    let r = join_strings(&params, ",");
    assert(views(params@) =~= seq![
        quoted_param("keyId"@, key_id@),
        quoted_param("algorithm"@, "rsa-sha256"@),
        quoted_param("headers"@, headers@),
        quoted_param("signature"@, signature@),
    ]);
    r
}

/// The `Authorization` header value that carries the same signature.
pub fn authorization_header_value(signature_header: &str) -> (r: String)
    ensures
        r@ == "Signature "@ + signature_header@,
{
    concat("Signature ", signature_header)
}

/// The request headers as the signature code sees them: (lowercase name,
/// value) pairs in the order the request carries them.
pub open spec fn header_pairs(h: Seq<(String, String)>) -> Seq<(Seq<char>, Seq<char>)> {
    h.map_values(|p: (String, String)| (p.0@, p.1@))
}

/// The value of the first header named `name`.
pub open spec fn header_lookup(h: Seq<(Seq<char>, Seq<char>)>, name: Seq<char>) -> Option<Seq<char>>
    decreases h.len(),
{
    if h.len() == 0 {
        None
    } else if h[0].0 == name {
        Some(h[0].1)
    } else {
        header_lookup(h.drop_first(), name)
    }
}

/// A header value with its line breaks removed: every line feed goes, and
/// so does every carriage return right after a line feed (which is what
/// removing each "\n\r" and then each "\n" leaves).
pub open spec fn strip_newlines(s: Seq<char>) -> Seq<char>
    decreases s.len(),
{
    if s.len() == 0 {
        s
    } else {
        let prefix = strip_newlines(s.drop_last());
        let c = s.last();
        if c == '\n' || (c == '\r' && s.len() >= 2 && s[s.len() - 2] == '\n') {
            prefix
        } else {
            prefix.push(c)
        }
    }
}

/// The value that a signed header contributes: for the pseudo-header
/// `(request-target)`, the lowercased method, a space and the path; for any
/// other, the request's header of that name with line breaks removed.
pub open spec fn signed_value(
    name: Seq<char>,
    method: Method,
    url_path: Seq<char>,
    headers: Seq<(Seq<char>, Seq<char>)>,
) -> Option<Seq<char>> {
    if name == "(request-target)"@ {
        Some(lowercased(method_name(method)) + " "@ + url_path)
    } else {
        match header_lookup(headers, name) {
            Some(v) => Some(strip_newlines(v)),
            None => None,
        }
    }
}

/// The (lowercased name, value) of each signed header in order, or the
/// first lowercased name whose header the request lacks.
pub open spec fn signed_pairs(
    signed: Seq<Seq<char>>,
    method: Method,
    url_path: Seq<char>,
    headers: Seq<(Seq<char>, Seq<char>)>,
) -> Result<Seq<(Seq<char>, Seq<char>)>, Seq<char>>
    decreases signed.len(),
{
    if signed.len() == 0 {
        Ok(Seq::empty())
    } else {
        match signed_pairs(signed.drop_last(), method, url_path, headers) {
            Err(e) => Err(e),
            Ok(ps) => {
                let name = lowercased(signed.last());
                match signed_value(name, method, url_path, headers) {
                    None => Err(name),
                    Some(v) => Ok(ps.push((name, v))),
                }
            },
        }
    }
}

/// The pairs grouped by name: each name once, in the order it first comes,
/// with all its values in order.
pub open spec fn grouped(ps: Seq<(Seq<char>, Seq<char>)>) -> Seq<(Seq<char>, Seq<Seq<char>>)>
    decreases ps.len(),
{
    if ps.len() == 0 {
        Seq::empty()
    } else {
        let g = grouped(ps.drop_last());
        let (k, v) = ps.last();
        let i = key_position(g, k);
        if i >= 0 {
            g.update(i, (k, g[i].1.push(v)))
        } else {
            g.push((k, seq![v]))
        }
    }
}

/// One line of the signed message: `name: value1, value2`.
pub open spec fn signed_line(g: (Seq<char>, Seq<Seq<char>>)) -> Seq<char> {
    g.0 + ": "@ + join(g.1, ", "@)
}

/// The message that is signed: one line per header name, joined with line feeds.
pub open spec fn signed_message(groups: Seq<(Seq<char>, Seq<Seq<char>>)>) -> Seq<char> {
    join(groups.map_values(|g: (Seq<char>, Seq<Seq<char>>)| signed_line(g)), "\n"@)
}

/// The message to sign and the header list that accompanies the signature.
#[derive(Debug, Clone)]
pub struct SignedHeader {
    pub message_to_sign: String,
    pub headers: String,
}

/// A header that is to be signed is missing from the request.
#[derive(Debug, Clone)]
pub struct NotIncludedHeader(pub String);

/// `v` joined with `sep` between consecutive strings.
pub fn join_strings(v: &Vec<String>, sep: &str) -> (r: String)
    ensures
        r@ == join(views(v@), sep@),
{
    let mut out = String::new();
    let mut i: usize = 0;
    while i < v.len()
        invariant
            i <= v@.len(),
            out@ == join(views(v@).subrange(0, i as int), sep@),
        decreases v.len() - i,
    {
        let ghost pre = views(v@).subrange(0, i as int);
        let ghost post = views(v@).subrange(0, i + 1);
        assert(post.drop_last() =~= pre);
        assert(post.last() == v@[i as int]@);
        if i > 0 {
            out.append(sep);
        } else {
            assert(pre.len() == 0);
        }
        out.append(v[i].as_str());
        i = i + 1;
    }
    assert(views(v@).subrange(0, v@.len() as int) =~= views(v@));
    out
}

/// The value of the first header named `name`.
pub fn lookup_header<'a>(headers: &'a Vec<(String, String)>, name: &str) -> (r: Option<&'a String>)
    ensures
        match header_lookup(header_pairs(headers@), name@) {
            Some(v) => r matches Some(s) && s@ == v,
            None => r is None,
        },
{
    let mut i: usize = 0;
    assert(header_pairs(headers@).subrange(0, headers@.len() as int) =~= header_pairs(headers@));
    while i < headers.len()
        invariant
            i <= headers@.len(),
            header_lookup(header_pairs(headers@), name@) == header_lookup(
                header_pairs(headers@).subrange(i as int, headers@.len() as int),
                name@,
            ),
        decreases headers.len() - i,
    {
        let ghost rest = header_pairs(headers@).subrange(i as int, headers@.len() as int);
        assert(rest[0] == (headers@[i as int].0@, headers@[i as int].1@));
        if str_eq(headers[i].0.as_str(), name) {
            return Some(&headers[i].1);
        }
        assert(rest.drop_first() =~= header_pairs(headers@).subrange(i + 1, headers@.len() as int));
        i = i + 1;
    }
    None
}

/// A header value with its line breaks removed.
pub fn remove_newlines(s: &str) -> (r: String)
    ensures
        r@ == strip_newlines(s@),
{
    let n = s.unicode_len();
    let mut out = String::new();
    let mut i: usize = 0;
    while i < n
        invariant
            i <= n,
            n == s@.len(),
            out@ == strip_newlines(s@.subrange(0, i as int)),
        decreases n - i,
    {
        let ghost pre = s@.subrange(0, i as int);
        let ghost post = s@.subrange(0, i + 1);
        assert(post.drop_last() =~= pre);
        let c = s.get_char(i);
        let after_lf = i >= 1 && s.get_char(i - 1) == '\n';
        if i >= 1 {
            assert(post[post.len() - 2] == s@[i - 1]);
        }
        if !(c == '\n' || (c == '\r' && after_lf)) {
            push_char(&mut out, c);
        }
        i = i + 1;
    }
    assert(s@.subrange(0, n as int) =~= s@);
    out
}

/// The request's header of that name, or the request target.
fn signed_header_value(
    name: &str,
    method: Method,
    url_path: &str,
    headers: &Vec<(String, String)>,
) -> (r: Option<String>)
    ensures
        crate::ids::opt_view(r) == signed_value(name@, method, url_path@, header_pairs(headers@)),
{
    if str_eq(name, "(request-target)") {
        let m = to_lowercase(method.as_str());
        let mut v = concat(m.as_str(), " ");
        v.append(url_path);
        Some(v)
    } else {
        match lookup_header(headers, name) {
            Some(v) => Some(remove_newlines(v.as_str())),
            None => None,
        }
    }
}

/// Builds the message that a signature covers: for each signed header, in
/// order, its lowercased name and value; repeated names are gathered on the
/// line where the name first comes. Fails with the first lowercased name the
/// request lacks.
pub fn make_signed_message(
    headers: &Vec<(String, String)>,
    method: Method,
    url_path: &str,
    signed_headers: &Vec<String>,
) -> (r: Result<SignedHeader, NotIncludedHeader>)
    ensures
        match signed_pairs(views(signed_headers@), method, url_path@, header_pairs(headers@)) {
            Err(name) => r matches Err(NotIncludedHeader(n)) && n@ == name,
            Ok(ps) => r matches Ok(sh) && sh.message_to_sign@ == signed_message(grouped(ps))
                && sh.headers@ == join(views(signed_headers@), " "@) && forall|i: int|
                0 <= i < views(signed_headers@).len() && all_lowercase_fixed(
                    #[trigger] views(signed_headers@)[i],
                ) ==> lowercased(views(signed_headers@)[i]) == views(signed_headers@)[i],
        },
{
    let mut added = header_map_new();
    let mut i: usize = 0;
    let ghost mut ps: Seq<(Seq<char>, Seq<char>)> = Seq::empty();
    while i < signed_headers.len()
        invariant
            i <= signed_headers@.len(),
            signed_pairs(
                views(signed_headers@).subrange(0, i as int),
                method,
                url_path@,
                header_pairs(headers@),
            ) == Ok::<Seq<(Seq<char>, Seq<char>)>, Seq<char>>(ps),
            header_groups(added) == grouped(ps),
            forall|j: int|
                0 <= j < i && all_lowercase_fixed(#[trigger] views(signed_headers@)[j])
                    ==> lowercased(views(signed_headers@)[j]) == views(signed_headers@)[j],
        decreases signed_headers.len() - i,
    {
        let ghost pre = views(signed_headers@).subrange(0, i as int);
        let ghost post = views(signed_headers@).subrange(0, i + 1);
        assert(post.drop_last() =~= pre);
        assert(post.last() == signed_headers@[i as int]@);
        let h = to_lowercase(signed_headers[i].as_str());
        assert(views(signed_headers@)[i as int] == signed_headers@[i as int]@);
        let value = match signed_header_value(h.as_str(), method, url_path, headers) {
            Some(v) => v,
            None => {
                proof {
                    lemma_signed_pairs_error_stays(
                        views(signed_headers@),
                        i + 1,
                        method,
                        url_path@,
                        header_pairs(headers@),
                    );
                }
                return Err(NotIncludedHeader(h));
            },
        };
        let ghost g0 = header_groups(added);
        if header_map_contains(&added, h.as_str()) {
            header_map_push(&mut added, h.as_str(), value);
        } else {
            let mut values: Vec<String> = Vec::new();
            values.push(value);
            assert(views(values@) =~= seq![value@]);
            header_map_insert(&mut added, h, values);
        }
        proof {
            let newps = ps.push((lowercased(post.last()), value@));
            assert(newps.drop_last() =~= ps);
            ps = newps;
        }
        i = i + 1;
    }
    assert(views(signed_headers@).subrange(0, signed_headers@.len() as int) =~= views(
        signed_headers@,
    ));
    let entries = header_map_entries(&added);
    let mut lines: Vec<String> = Vec::new();
    let mut j: usize = 0;
    while j < entries.len()
        invariant
            j <= entries@.len(),
            entries@.map_values(|e: (String, Vec<String>)| (e.0@, views(e.1@))) == grouped(ps),
            views(lines@) == grouped(ps).subrange(0, j as int).map_values(
                |g: (Seq<char>, Seq<Seq<char>>)| signed_line(g),
            ),
        decreases entries.len() - j,
    {
        let values = join_strings(&entries[j].1, ", ");
        let mut line = concat(entries[j].0.as_str(), ": ");
        line.append(values.as_str());
        let ghost before = lines@;
        assert(entries@.map_values(|e: (String, Vec<String>)| (e.0@, views(e.1@)))[j as int] == (
            entries@[j as int].0@,
            views(entries@[j as int].1@),
        ));
        assert(grouped(ps)[j as int] == (entries@[j as int].0@, views(entries@[j as int].1@)));
        assert(signed_line(grouped(ps)[j as int]) == line@);
        lines.push(line);
        assert(views(lines@) =~= views(before).push(line@));
        assert(views(lines@) =~= grouped(ps).subrange(0, j + 1).map_values(
            |g: (Seq<char>, Seq<Seq<char>>)| signed_line(g),
        ));
        j = j + 1;
    }
    assert(grouped(ps).subrange(0, entries@.len() as int) =~= grouped(ps));
    let message_to_sign = join_strings(&lines, "\n");
    let joined = join_strings(signed_headers, " ");
    Ok(SignedHeader { message_to_sign, headers: joined })
}

/// Once a prefix of the signed headers fails, every longer one fails the same way.
proof fn lemma_signed_pairs_error_stays(
    signed: Seq<Seq<char>>,
    k: int,
    method: Method,
    url_path: Seq<char>,
    headers: Seq<(Seq<char>, Seq<char>)>,
)
    requires
        0 <= k <= signed.len(),
        signed_pairs(signed.subrange(0, k), method, url_path, headers) is Err,
    ensures
        signed_pairs(signed, method, url_path, headers) == signed_pairs(
            signed.subrange(0, k),
            method,
            url_path,
            headers,
        ),
    decreases signed.len() - k,
{
    if k < signed.len() {
        let next = signed.subrange(0, k + 1);
        assert(next.drop_last() =~= signed.subrange(0, k));
        lemma_signed_pairs_error_stays(signed, k + 1, method, url_path, headers);
    } else {
        assert(signed.subrange(0, k) =~= signed);
    }
}

/// What verifying a signed request needs once the signature header has been
/// read: the message that was signed, the signature's bytes, and the id of
/// the key to check them with.
#[derive(Debug, Clone)]
pub struct VerificationInput {
    pub message: SignedHeader,
    pub signature: Vec<u8>,
    pub key_id: String,
}

/// What checking a request's `Signature` header finds, when the check
/// passes: the signed message, the signature's bytes and the key id.
pub open spec fn verification_of(
    headers: Seq<(Seq<char>, Seq<char>)>,
    method: Method,
    url_path: Seq<char>,
) -> Option<(Seq<char>, Seq<u8>, Seq<char>)> {
    match header_lookup(headers, "signature"@) {
        None => None,
        Some(sig) => {
            let signed = spec_extract_headers(sig);
            if !(forall|i: int|
                0 <= i < spec_required_headers(method).len() ==> signed.contains(
                    #[trigger] spec_required_headers(method)[i],
                )) {
                None
            } else {
                match signed_pairs(signed, method, url_path, headers) {
                    Err(_) => None,
                    Ok(ps) => match spec_extract_signature(sig) {
                        None => None,
                        Some(s) => match base64_decoded(s) {
                            None => None,
                            Some(bytes) => match spec_extract_key_id(sig) {
                                None => None,
                                Some(k) => Some((signed_message(grouped(ps)), bytes, k)),
                            },
                        },
                    },
                }
            }
        },
    }
}

/// How a request's `Signature` header is checked before its key is fetched:
/// it must be present; the headers it lists must cover what the method
/// requires and be present in the request; it must carry a signature that
/// decodes as base64, and a key id.
pub fn prepare_verification(
    headers: &Vec<(String, String)>,
    method: Method,
    url_path: &str,
) -> (r: Result<VerificationInput, VerifyError>)
    ensures
        match header_lookup(header_pairs(headers@), "signature"@) {
            None => r matches Err(VerifyError::SignatureNotFound),
            Some(sig) => {
                let signed = spec_extract_headers(sig);
                if !(forall|i: int|
                    0 <= i < spec_required_headers(method).len() ==> signed.contains(
                        #[trigger] spec_required_headers(method)[i],
                    )) {
                    r matches Err(VerifyError::InsufficientHeader)
                } else {
                    match signed_pairs(signed, method, url_path@, header_pairs(headers@)) {
                        Err(_) => r matches Err(VerifyError::InsufficientHeader),
                        Ok(ps) => match spec_extract_signature(sig) {
                            None => r matches Err(VerifyError::SignatureInvalid),
                            Some(s) => match base64_decoded(s) {
                                None => r matches Err(VerifyError::Other(_)),
                                Some(bytes) => match spec_extract_key_id(sig) {
                                    None => r matches Err(VerifyError::KeyNotFound),
                                    Some(k) => r matches Ok(input) && input.message.message_to_sign@
                                        == signed_message(grouped(ps)) && input.signature@ == bytes
                                        && input.key_id@ == k,
                                },
                            },
                        },
                    }
                }
            },
        },
        (r is Ok) == (verification_of(header_pairs(headers@), method, url_path@) is Some),
        r matches Ok(input) ==> verification_of(header_pairs(headers@), method, url_path@) == Some(
            (input.message.message_to_sign@, input.signature@, input.key_id@),
        ),
{
    let signature = match lookup_header(headers, "signature") {
        Some(s) => s,
        None => return Err(VerifyError::SignatureNotFound),
    };
    let signed_headers = extract_headers(signature.as_str());
    if !covers_required_headers(method, &signed_headers) {
        return Err(VerifyError::InsufficientHeader);
    }
    let message = match make_signed_message(headers, method, url_path, &signed_headers) {
        Ok(m) => m,
        Err(_) => return Err(VerifyError::InsufficientHeader),
    };
    let signed_signature = match extract_signature(signature.as_str()) {
        Some(s) => s,
        None => return Err(VerifyError::SignatureInvalid),
    };
    let bytes = match base64_decode(signed_signature.as_str()) {
        Some(b) => b,
        None => return Err(VerifyError::Other("invalid base64 in signature".to_owned())),
    };
    let key_id = match extract_key_id(signature.as_str()) {
        Some(k) => k,
        None => return Err(VerifyError::KeyNotFound),
    };
    Ok(VerificationInput { message, signature: bytes, key_id })
}

/// A header name, key id or signature that survives the header syntax: no
/// space, comma, equals sign or quote.
pub open spec fn plain_token(s: Seq<char>) -> bool {
    free_of(s, ' ') && free_of(s, ',') && free_of(s, '=') && free_of(s, '"')
}

/// Quotes around text without quotes are trimmed off exactly.
proof fn lemma_trim_quoted(v: Seq<char>)
    requires
        free_of(v, '"'),
    ensures
        trim_matches(seq!['"'] + v + seq!['"'], '"') == v,
{
    let s = seq!['"'] + v + seq!['"'];
    if v.len() == 0 {
        lemma_trim_start(s, '"', 2);
        assert(s.subrange(2, 2) =~= Seq::<char>::empty());
        assert(trim_end(Seq::<char>::empty(), '"') == Seq::<char>::empty());
    } else {
        lemma_trim_start(s, '"', 1);
        let t = s.subrange(1, s.len() as int);
        assert(t =~= v + seq!['"']);
        lemma_trim_end(t, '"', v.len() as int);
        assert(t.subrange(0, v.len() as int) =~= v);
    }
}

/// Joined text holds no character that none of its parts holds (other than
/// the separator).
proof fn lemma_join_free(parts: Seq<Seq<char>>, sep: Seq<char>, c: char)
    requires
        free_of(sep, c),
        forall|i: int| 0 <= i < parts.len() ==> free_of(#[trigger] parts[i], c),
    ensures
        free_of(join(parts, sep), c),
    decreases parts.len(),
{
    if parts.len() > 1 {
        lemma_join_free(parts.drop_last(), sep, c);
        let a = join(parts.drop_last(), sep);
        let b = parts.last();
        assert forall|i: int| 0 <= i < (a + sep + b).len() implies (a + sep + b)[i] != c by {
            if i < a.len() {
            } else if i < a.len() + sep.len() {
                assert((a + sep + b)[i] == sep[i - a.len()]);
            } else {
                assert((a + sep + b)[i] == b[i - a.len() - sep.len()]);
            }
        }
    }
}

/// Names joined with spaces split back into the same names.
proof fn lemma_split_join(names: Seq<Seq<char>>)
    requires
        names.len() > 0,
        forall|i: int| 0 <= i < names.len() ==> free_of(#[trigger] names[i], ' '),
    ensures
        split(join(names, " "@), ' ') == names,
    decreases names.len(),
{
    reveal_strlit(" ");
    if names.len() == 1 {
        lemma_split_free(names[0], ' ');
        assert(names =~= seq![names[0]]);
    } else {
        let init = names.drop_last();
        lemma_split_join(init);
        assert(join(names, " "@) =~= join(init, " "@) + seq![' '] + names.last());
        lemma_split_concat(join(init, " "@), names.last(), ' ');
        lemma_split_free(names.last(), ' ');
        assert(names =~= init + seq![names.last()]);
    }
}

/// A quoted parameter splits on `=` into its name and its quoted value.
proof fn lemma_param_split(name: Seq<char>, value: Seq<char>)
    requires
        free_of(name, '='),
        free_of(value, '='),
        free_of(name, ','),
        free_of(value, ','),
    ensures
        split(quoted_param(name, value), '=') == seq![name, seq!['"'] + value + seq!['"']],
        free_of(quoted_param(name, value), ','),
        char_index(quoted_param(name, value), '=') == name.len(),
{
    reveal_strlit("=\"");
    reveal_strlit("\"");
    let q = seq!['"'] + value + seq!['"'];
    let p = quoted_param(name, value);
    assert(p =~= name + seq!['='] + q);
    assert(free_of(q, '=')) by {
        assert forall|i: int| 0 <= i < q.len() implies q[i] != '=' by {
            if 0 < i < q.len() - 1 {
                assert(q[i] == value[i - 1]);
            }
        }
    }
    lemma_split_concat(name, q, '=');
    lemma_split_free(name, '=');
    lemma_split_free(q, '=');
    assert forall|i: int| 0 <= i < p.len() implies p[i] != ',' by {
        if i < name.len() {
            assert(p[i] == name[i]);
        } else if name.len() + 1 < i < p.len() - 1 {
            assert(p[i] == value[i - name.len() - 2]);
        }
    }
    assert forall|j: int| 0 <= j < name.len() implies p[j] != '=' by {
        assert(p[j] == name[j]);
    }
    lemma_char_index(p, '=', name.len() as int);
}

/// The header splits on commas into its four parameters.
proof fn lemma_header_parts(p1: Seq<char>, p2: Seq<char>, p3: Seq<char>, p4: Seq<char>)
    requires
        free_of(p1, ','),
        free_of(p2, ','),
        free_of(p3, ','),
        free_of(p4, ','),
    ensures
        split(join(seq![p1, p2, p3, p4], ","@), ',') == seq![p1, p2, p3, p4],
{
    reveal_strlit(",");
    let c = seq![','];
    assert(","@ =~= c);
    let s4 = seq![p1, p2, p3, p4];
    let s3 = seq![p1, p2, p3];
    let s2 = seq![p1, p2];
    let s1 = seq![p1];
    assert(s4.drop_last() =~= s3);
    assert(s3.drop_last() =~= s2);
    assert(s2.drop_last() =~= s1);
    assert(join(s1, ","@) == p1);
    assert(join(s2, ","@) == p1 + c + p2);
    assert(join(s3, ","@) == p1 + c + p2 + c + p3);
    assert(join(s4, ","@) == p1 + c + p2 + c + p3 + c + p4);
    lemma_split_concat(p1 + c + p2 + c + p3, p4, ',');
    lemma_split_concat(p1 + c + p2, p3, ',');
    lemma_split_concat(p1, p2, ',');
    lemma_split_free(p1, ',');
    lemma_split_free(p2, ',');
    lemma_split_free(p3, ',');
    lemma_split_free(p4, ',');
    assert(split(join(s4, ","@), ',') =~= s4);
}

/// What a signer writes in the `Signature` header, a verifier reads back:
/// the key id, the list of signed header names and the signature, for key
/// ids and header names free of the header's delimiters (space, comma, `=`,
/// quote) and signatures free of commas and quotes (base64 has neither).
pub proof fn lemma_signature_header_roundtrip(
    key_id: Seq<char>,
    names: Seq<Seq<char>>,
    signature: Seq<char>,
)
    requires
        plain_token(key_id),
        free_of(signature, ','),
        free_of(signature, '"'),
        names.len() > 0,
        forall|i: int| 0 <= i < names.len() ==> plain_token(#[trigger] names[i]),
    ensures
        spec_extract_key_id(spec_signature_header(key_id, join(names, " "@), signature)) == Some(
            key_id,
        ),
        spec_extract_headers(spec_signature_header(key_id, join(names, " "@), signature))
            == names,
        spec_extract_signature(spec_signature_header(key_id, join(names, " "@), signature))
            == Some(signature),
{
    reveal_strlit("keyId");
    reveal_strlit("algorithm");
    reveal_strlit("rsa-sha256");
    reveal_strlit("headers");
    reveal_strlit("signature");
    reveal_strlit("keyId=");
    reveal_strlit("headers=");
    reveal_strlit("signature=");
    reveal_strlit(",");
    reveal_strlit(" ");
    reveal_strlit("=\"");
    reveal_strlit("\"");
    let j = join(names, " "@);
    assert forall|i: int| 0 <= i < names.len() implies free_of(#[trigger] names[i], ',') by {
        assert(plain_token(names[i]));
    }
    assert forall|i: int| 0 <= i < names.len() implies free_of(#[trigger] names[i], '=') by {
        assert(plain_token(names[i]));
    }
    assert forall|i: int| 0 <= i < names.len() implies free_of(#[trigger] names[i], '"') by {
        assert(plain_token(names[i]));
    }
    assert forall|i: int| 0 <= i < names.len() implies free_of(#[trigger] names[i], ' ') by {
        assert(plain_token(names[i]));
    }
    lemma_join_free(names, " "@, ',');
    lemma_join_free(names, " "@, '=');
    lemma_join_free(names, " "@, '"');
    let p1 = quoted_param("keyId"@, key_id);
    let p2 = quoted_param("algorithm"@, "rsa-sha256"@);
    let p3 = quoted_param("headers"@, j);
    let p4 = quoted_param("signature"@, signature);
    lemma_param_split("keyId"@, key_id);
    lemma_param_split("algorithm"@, "rsa-sha256"@);
    lemma_param_split("headers"@, j);
    if !free_of(signature, '=') {
        assert(free_of(p4, ',')) by {
            assert forall|i: int| 0 <= i < p4.len() implies p4[i] != ',' by {
                if 10 < i < p4.len() - 1 {
                    assert(p4[i] == signature[i - 11]);
                }
            }
        }
        assert forall|k: int| 0 <= k < 9 implies p4[k] != '=' by {
            assert(p4[k] == "signature"@[k]);
        }
        lemma_char_index(p4, '=', 9);
    } else {
        lemma_param_split("signature"@, signature);
    }
    let h = spec_signature_header(key_id, j, signature);
    lemma_header_parts(p1, p2, p3, p4);
    let parts = split(h, ',');
    assert(parts =~= seq![p1, p2, p3, p4]);
    assert(has_prefix(p1, "keyId="@)) by {
        assert(p1.subrange(0, 6) =~= "keyId="@);
    }
    assert(!has_prefix(p1, "headers="@)) by {
        assert(p1[0] != "headers="@[0]);
    }
    assert(!has_prefix(p2, "headers="@)) by {
        assert(p2[0] != "headers="@[0]);
    }
    assert(has_prefix(p3, "headers="@)) by {
        assert(p3.subrange(0, 8) =~= "headers="@);
    }
    assert(!has_prefix(p1, "signature="@)) by {
        assert(p1[0] != "signature="@[0]);
    }
    assert(!has_prefix(p2, "signature="@)) by {
        assert(p2[0] != "signature="@[0]);
    }
    assert(!has_prefix(p3, "signature="@)) by {
        assert(p3[0] != "signature="@[0]);
    }
    assert(has_prefix(p4, "signature="@)) by {
        assert(p4.subrange(0, 10) =~= "signature="@);
    }
    assert(parts.drop_first() =~= seq![p2, p3, p4]);
    assert(parts.drop_first().drop_first() =~= seq![p3, p4]);
    assert(parts.drop_first().drop_first().drop_first() =~= seq![p4]);
    assert(signature_param(h, "keyId="@) == Some(p1));
    let t2 = seq![p2, p3, p4];
    let t3 = seq![p3, p4];
    let t4 = seq![p4];
    assert(t2.drop_first() =~= t3);
    assert(t3.drop_first() =~= t4);
    assert(find_prefixed(t3, "headers="@) == Some(p3));
    assert(find_prefixed(t2, "headers="@) == Some(p3));
    assert(find_prefixed(parts, "headers="@) == Some(p3));
    assert(signature_param(h, "headers="@) == Some(p3));
    assert(find_prefixed(t4, "signature="@) == Some(p4));
    assert(find_prefixed(t3, "signature="@) == Some(p4));
    assert(find_prefixed(t2, "signature="@) == Some(p4));
    assert(find_prefixed(parts, "signature="@) == Some(p4));
    assert(signature_param(h, "signature="@) == Some(p4));
    lemma_trim_quoted(key_id);
    lemma_trim_quoted(j);
    lemma_split_join(names);
    assert(p4.subrange(10, p4.len() as int) =~= seq!['"'] + signature + seq!['"']);
    lemma_trim_quoted(signature);
}

/// The headers that an outgoing request signs: the request target,
/// `content-type`, `host` and `date`, and `digest` as well for POST.
pub open spec fn spec_outgoing_signed_headers(method: Method) -> Seq<Seq<char>> {
    if method == Method::POST {
        seq!["(request-target)"@, "content-type"@, "host"@, "date"@, "digest"@]
    } else {
        seq!["(request-target)"@, "content-type"@, "host"@, "date"@]
    }
}

/// The headers that an outgoing request with `method` signs.
pub fn outgoing_signed_headers(method: Method) -> (r: Vec<String>)
    ensures
        views(r@) == spec_outgoing_signed_headers(method),
{
    let mut v: Vec<String> = Vec::new();
    v.push(to_owned_string("(request-target)"));
    v.push(to_owned_string("content-type"));
    v.push(to_owned_string("host"));
    v.push(to_owned_string("date"));
    if method == Method::POST {
        v.push(to_owned_string("digest"));
    }
    assert(views(v@) =~= spec_outgoing_signed_headers(method));
    v
}

/// The `Digest` header of a request body: `SHA-256=` and the base64 of the
/// body's SHA-256 digest.
pub fn digest_header_value(body: &[u8]) -> (r: String)
    ensures
        r@ == "SHA-256="@ + base64_encoded(sha256_of(body@)),
{
    let digest = sha256(body);
    let encoded = base64_encode(digest.as_slice());
    concat("SHA-256=", encoded.as_str())
}

/// The `Signature` and `Authorization` headers that carry a signature made
/// with the key `key_id` over `message`.
pub fn signature_headers(key_id: &str, message: &SignedHeader, signature: &[u8]) -> (r: (
    String,
    String,
))
    ensures
        r.0@ == spec_signature_header(key_id@, message.headers@, base64_encoded(signature@)),
        r.1@ == "Signature "@ + r.0@,
        base64_decoded(base64_encoded(signature@)) == Some(signature@),
        free_of(base64_encoded(signature@), ','),
        free_of(base64_encoded(signature@), '"'),
{
    let encoded = base64_encode(signature);
    assert(free_of(encoded@, ',') && free_of(encoded@, '"')) by {
        assert forall|i: int| 0 <= i < encoded@.len() implies encoded@[i] != ',' && encoded@[i] != '"' by {
            assert(crate::ext::base64_char(encoded@[i]));
        }
    }
    let header = signature_header_value(key_id, message.headers.as_str(), encoded.as_str());
    let auth = authorization_header_value(header.as_str());
    (header, auth)
}

} // verus!
