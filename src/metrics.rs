use vstd::prelude::*;
use vstd::string::{StrSliceExecFns, StringExecFns};

use crate::routes::contact::byte_len;

verus! {

/// The pieces of `s` between slashes, as `str::split('/')` gives them.
pub open spec fn split_slash(s: Seq<char>) -> Seq<Seq<char>>
    decreases s.len(),
{
    if s.len() == 0 {
        seq![Seq::<char>::empty()]
    } else {
        let rest = split_slash(s.drop_last());
        if s.last() == '/' {
            rest.push(Seq::<char>::empty())
        } else {
            rest.update(rest.len() - 1, rest.last().push(s.last()))
        }
    }
}

/// The number of dashes in `s`.
pub open spec fn dash_count(s: Seq<char>) -> nat
    decreases s.len(),
{
    if s.len() == 0 {
        0
    } else {
        dash_count(s.drop_last()) + if s.last() == '-' {
            1nat
        } else {
            0nat
        }
    }
}

/// A segment that looks like a UUID: 36 bytes with four dashes.
pub open spec fn looks_like_uuid(seg: Seq<char>) -> bool {
    byte_len(seg) == 36 && dash_count(seg) == 4
}

/// A non-empty segment of ASCII digits.
pub open spec fn is_numeric(seg: Seq<char>) -> bool {
    seg.len() > 0 && forall|i: int| 0 <= i < seg.len() ==> '0' <= #[trigger] seg[i] <= '9'
}

/// What a segment becomes in a route label: ids become `{id}`.
pub open spec fn sanitize_segment(seg: Seq<char>) -> Seq<char> {
    if looks_like_uuid(seg) || is_numeric(seg) {
        "{id}"@
    } else {
        seg
    }
}

/// The sanitized segments before the last one, each followed by a slash.
pub open spec fn joined_lead(segs: Seq<Seq<char>>) -> Seq<char>
    decreases segs.len(),
{
    if segs.len() <= 1 {
        Seq::<char>::empty()
    } else {
        joined_lead(segs.drop_last()) + sanitize_segment(segs.drop_last().last()) + "/"@
    }
}

/// The route label of a path: each slash-separated segment that is an id (a UUID or
/// a number) becomes `{id}`, the rest stays.
pub open spec fn sanitize_route_spec(path: Seq<char>) -> Seq<char> {
    let segs = split_slash(path);
    joined_lead(segs) + sanitize_segment(segs.last())
}

proof fn lemma_split_nonempty(s: Seq<char>)
    ensures
        split_slash(s).len() >= 1,
    decreases s.len(),
{
    if s.len() > 0 {
        lemma_split_nonempty(s.drop_last());
    }
}

fn segment_label(seg: &str) -> (r: bool)
    ensures
        r == (looks_like_uuid(seg@) || is_numeric(seg@)),
{
    let n = seg.unicode_len();
    let mut dashes: usize = 0;
    let mut digits = n > 0;
    let mut i: usize = 0;
    while i < n
        invariant
            n == seg@.len(),
            i <= n,
            dashes == dash_count(seg@.subrange(0, i as int)),
            dashes <= i,
            digits == (n > 0 && forall|j: int| 0 <= j < i ==> '0' <= #[trigger] seg@[j] <= '9'),
        decreases n - i,
    {
        let c = seg.get_char(i);
        proof {
            assert(seg@.subrange(0, i + 1).drop_last() =~= seg@.subrange(0, i as int));
        }
        if c == '-' {
            dashes = dashes + 1;
        }
        if !('0' <= c && c <= '9') {
            digits = false;
        }
        i = i + 1;
    }
    proof {
        assert(seg@.subrange(0, n as int) =~= seg@);
    }
    (seg.len() == 36 && dashes == 4) || digits
}

/// Replaces the id segments of a request path with `{id}`, so that the number of
/// distinct route labels stays small.
pub fn sanitize_route(path: &str) -> (r: String)
    ensures
        r@ == sanitize_route_spec(path@),
{
    let n = path.unicode_len();
    let mut out = String::new();
    let mut start: usize = 0;
    let mut i: usize = 0;
    while i < n
        invariant
            n == path@.len(),
            start <= i <= n,
            split_slash(path@.subrange(0, i as int)).len() >= 1,
            out@ == joined_lead(split_slash(path@.subrange(0, i as int))),
            path@.subrange(start as int, i as int) == split_slash(path@.subrange(0, i as int)).last(),
        decreases n - i,
    {
        let c = path.get_char(i);
        let ghost prefix = path@.subrange(0, i as int);
        let ghost next = path@.subrange(0, i + 1);
        proof {
            assert(next.drop_last() =~= prefix);
            lemma_split_nonempty(prefix);
        }
        if c == '/' {
            let seg = path.substring_char(start, i);
            if segment_label(seg) {
                out.append("{id}");
            } else {
                out.append(seg);
            }
            out.append("/");
            start = i + 1;
            proof {
                let segs = split_slash(next);
                assert(segs.drop_last() =~= split_slash(prefix));
                assert(path@.subrange(start as int, i + 1) =~= Seq::<char>::empty());
            }
        } else {
            proof {
                let old_segs = split_slash(prefix);
                let segs = split_slash(next);
                assert(segs.drop_last() =~= old_segs.drop_last());
                assert(path@.subrange(start as int, i + 1) =~= path@.subrange(start as int, i as int).push(c));
            }
        }
        i = i + 1;
    }
    let last = path.substring_char(start, n);
    if segment_label(last) {
        out.append("{id}");
    } else {
        out.append(last);
    }
    proof {
        assert(path@.subrange(0, n as int) =~= path@);
    }
    out
}

/// What `sha2::Sha256` gives for these bytes, written as lower-case hex.
pub uninterp spec fn sha256_hex(bytes: Seq<u8>) -> Seq<char>;

/// Relies on `sha2::Digest::digest` for `Sha256`, shown in lower-case hex; the digest
/// depends on the bytes alone.
#[verifier::external_body]
fn sha256_hex_of(bytes: &[u8]) -> (r: String)
    ensures
        r@ == sha256_hex(bytes@),
{
    format!("{:x}", <sha2::Sha256 as sha2::Digest>::digest(bytes))
}

/// The 16 bytes of an id, most significant first (the byte order of a UUID).
pub open spec fn id_bytes(id: u128) -> Seq<u8> {
    Seq::new(16, |i: int| ((id >> ((8 * (15 - i)) as u128)) & 0xff) as u8)
}

/// The session hash stored with a page visit, so that session ids are never stored.
pub fn hash_session_id(session_id: u128) -> (r: String)
    ensures
        r@ == sha256_hex(id_bytes(session_id)),
{
    let mut bytes: Vec<u8> = Vec::with_capacity(16);
    let mut i: u128 = 0;
    while i < 16
        invariant
            i <= 16,
            bytes@.len() == i,
            forall|j: int| 0 <= j < i ==> bytes@[j] == id_bytes(session_id)[j],
        decreases 16 - i,
    {
        bytes.push(((session_id >> (8 * (15 - i))) & 0xff) as u8);
        i = i + 1;
    }
    assert(bytes@ =~= id_bytes(session_id));
    sha256_hex_of(bytes.as_slice())
}

/// The host that `url::Url::parse` finds in a text, if it parses and has one.
pub uninterp spec fn url_host(s: Seq<char>) -> Option<Seq<char>>;

/// The text of an optional string.
pub open spec fn opt_seq(s: Option<String>) -> Option<Seq<char>> {
    match s {
        Some(t) => Some(t@),
        None => None,
    }
}

/// Relies on `url::Url::parse` and `Url::host_str`: the host of an absolute URL, which
/// depends on the text alone.
#[verifier::external_body]
fn host_of(s: &str) -> (r: Option<String>)
    ensures
        opt_seq(r) == url_host(s@),
{
    url::Url::parse(s).ok().and_then(|u| u.host_str().map(String::from))
}

/// The domain of a referrer; none for an empty referrer.
pub fn extract_domain(url: &str) -> (r: Option<String>)
    ensures
        url@.len() == 0 ==> r is None,
        url@.len() > 0 ==> opt_seq(r) == url_host(url@),
{
    if url.is_empty() {
        None
    } else {
        host_of(url)
    }
}

/// A page visit as a client reports it.
#[derive(Debug)]
pub struct PageVisitRequest {
    pub page_path: String,
    pub referrer: Option<String>,
    pub session_id: u128,
    pub duration_ms: Option<i32>,
}

/// A page visit in the form that is stored: no session id, only its hash, and only
/// the referrer's domain.
#[derive(Debug)]
pub struct PageVisitRow {
    pub page_path: String,
    pub referrer_domain: Option<String>,
    pub session_hash: String,
    pub duration_ms: Option<i32>,
}

/// The referrer domain stored for a referrer.
pub open spec fn referrer_domain_of(referrer: Option<Seq<char>>) -> Option<Seq<char>> {
    match referrer {
        None => None,
        Some(r) => if r.len() == 0 {
            None
        } else {
            url_host(r)
        },
    }
}

/// The row stored for a page visit.
pub fn page_visit_row(visit: &PageVisitRequest) -> (r: PageVisitRow)
    ensures
        r.page_path@ == visit.page_path@,
        opt_seq(r.referrer_domain) == referrer_domain_of(opt_seq(visit.referrer)),
        r.session_hash@ == sha256_hex(id_bytes(visit.session_id)),
        r.duration_ms == visit.duration_ms,
{
    let referrer_domain = match &visit.referrer {
        Some(r) => extract_domain(r.as_str()),
        None => None,
    };
    PageVisitRow {
        page_path: visit.page_path.clone(),
        referrer_domain,
        session_hash: hash_session_id(visit.session_id),
        duration_ms: visit.duration_ms,
    }
}

/// How many users are on a page right now.
#[derive(Debug)]
pub struct CurrentPageView {
    pub page_path: String,
    pub user_count: i64,
}

/// `p` is a prefix of `s`.
pub open spec fn has_prefix(s: Seq<char>, p: Seq<char>) -> bool {
    p.len() <= s.len() && s.subrange(0, p.len() as int) == p
}

/// Whether `s` begins with `p`.
fn starts_with(s: &str, p: &str) -> (r: bool)
    ensures
        r == has_prefix(s@, p@),
{
    if p.unicode_len() > s.unicode_len() {
        return false;
    }
    crate::routes::blog::matches_at(s, p, 0)
}

/// A request counts as a page view when it is a GET outside `/api/` and `/metrics`.
pub fn counts_as_page_view(method: &str, path: &str) -> (r: bool)
    ensures
        r == (method@ == "GET"@ && !has_prefix(path@, "/api/"@) && !has_prefix(path@, "/metrics"@)),
{
    let m = String::from_str(method);
    let get = String::from_str("GET");
    m == get && !starts_with(path, "/api/") && !starts_with(path, "/metrics")
}

} // verus!
