use vstd::prelude::*;

use crate::errors::IdempotencyError;

verus! {

/// One header line: its name and its raw value bytes.
#[derive(Debug)]
pub struct HeaderPair {
    pub name: String,
    pub value: Vec<u8>,
}

impl View for HeaderPair {
    type V = (Seq<char>, Seq<u8>);

    open spec fn view(&self) -> (Seq<char>, Seq<u8>) {
        (self.name@, self.value@)
    }
}

/// The headers of a list of pairs, in order, duplicates kept.
pub open spec fn headers_view(h: Seq<HeaderPair>) -> Seq<(Seq<char>, Seq<u8>)> {
    h.map_values(|p: HeaderPair| p@)
}

/// A response as a client sees it: status, headers in order, body bytes.
pub struct ResponseView {
    pub status: u16,
    pub headers: Seq<(Seq<char>, Seq<u8>)>,
    pub body: Seq<u8>,
}

/// A response as the ledger keeps it.
pub struct RecordView {
    pub status_code: i16,
    pub headers: Seq<(Seq<char>, Seq<u8>)>,
    pub body: Seq<u8>,
}

/// An in-memory response whose body has been read to the end.
#[derive(Debug)]
pub struct CapturedResponse {
    pub status: u16,
    pub headers: Vec<HeaderPair>,
    pub body: Vec<u8>,
}

impl View for CapturedResponse {
    type V = ResponseView;

    open spec fn view(&self) -> ResponseView {
        ResponseView { status: self.status, headers: headers_view(self.headers@), body: self.body@ }
    }
}

/// The stored form of a response: a signed 16-bit status, the header pairs, the body.
#[derive(Debug)]
pub struct SavedResponse {
    pub status_code: i16,
    pub headers: Vec<HeaderPair>,
    pub body: Vec<u8>,
}

impl View for SavedResponse {
    type V = RecordView;

    open spec fn view(&self) -> RecordView {
        RecordView {
            status_code: self.status_code,
            headers: headers_view(self.headers@),
            body: self.body@,
        }
    }
}

/// A status code that HTTP accepts: three digits.
pub open spec fn is_valid_status(code: int) -> bool {
    100 <= code < 1000
}

/// The status as the store's signed 16-bit column holds it (same bits).
pub open spec fn signed_status(s: u16) -> i16 {
    if s < 0x8000 {
        s as i16
    } else {
        (s - 0x10000) as i16
    }
}

/// The record that a response is stored as.
pub open spec fn capture_spec(r: ResponseView) -> RecordView {
    RecordView { status_code: signed_status(r.status), headers: r.headers, body: r.body }
}

/// What a stored record decodes to; `None` when its status is no valid HTTP status.
pub open spec fn replay_spec(rec: RecordView) -> Option<ResponseView> {
    if is_valid_status(rec.status_code as int) {
        Some(ResponseView { status: rec.status_code as u16, headers: rec.headers, body: rec.body })
    } else {
        None
    }
}

/// Relies on `http::StatusCode::from_u16`, which accepts exactly the codes from 100 to 999.
#[verifier::external_body]
fn status_code_accepted(code: u16) -> (r: bool)
    ensures
        r == is_valid_status(code as int),
{
    actix_web::http::StatusCode::from_u16(code).is_ok()
}

fn copy_bytes(v: &Vec<u8>) -> (r: Vec<u8>)
    ensures
        r@ == v@,
{
    let mut r: Vec<u8> = Vec::with_capacity(v.len());
    let mut i: usize = 0;
    while i < v.len()
        invariant
            i <= v@.len(),
            r@ == v@.subrange(0, i as int),
        decreases v@.len() - i,
    {
        r.push(v[i]);
        i = i + 1;
    }
    assert(r@ =~= v@);
    r
}

fn copy_header(h: &HeaderPair) -> (r: HeaderPair)
    ensures
        r@ == h@,
{
    HeaderPair { name: h.name.clone(), value: copy_bytes(&h.value) }
}

/// A copy of a header list, same pairs in the same order.
fn copy_headers(h: &Vec<HeaderPair>) -> (r: Vec<HeaderPair>)
    ensures
        headers_view(r@) == headers_view(h@),
{
    let mut r: Vec<HeaderPair> = Vec::with_capacity(h.len());
    let mut i: usize = 0;
    while i < h.len()
        invariant
            i <= h@.len(),
            headers_view(r@) == headers_view(h@.subrange(0, i as int)),
        decreases h@.len() - i,
    {
        let c = copy_header(&h[i]);
        proof {
            assert(h@.subrange(0, i + 1) =~= h@.subrange(0, i as int).push(h@[i as int]));
            assert(headers_view(r@.push(c)) =~= headers_view(r@).push(c@));
            assert(headers_view(h@.subrange(0, i + 1)) =~= headers_view(
                h@.subrange(0, i as int),
            ).push(h@[i as int]@));
        }
        r.push(c);
        i = i + 1;
    }
    assert(h@.subrange(0, h@.len() as int) =~= h@);
    r
}

/// Turns a response into the form the ledger stores: the status keeps its bits as a
/// signed 16-bit number, headers and body are kept verbatim, duplicates and order
/// included.
pub fn capture(response: &CapturedResponse) -> (r: SavedResponse)
    ensures
        r@ == capture_spec(response@),
{
    let status_code: i16 = if response.status < 0x8000 {
        response.status as i16
    } else {
        (response.status as i32 - 0x10000) as i16
    };
    SavedResponse {
        status_code,
        headers: copy_headers(&response.headers),
        body: copy_bytes(&response.body),
    }
}

/// Rebuilds a response from a stored record, headers in stored order; a status that
/// is negative or no valid HTTP status gives `CorruptedRecord`.
pub fn replay(record: &SavedResponse) -> (r: Result<CapturedResponse, IdempotencyError>)
    ensures
        match replay_spec(record@) {
            Some(v) => r is Ok && r->Ok_0@ == v,
            None => r == Err::<CapturedResponse, IdempotencyError>(
                IdempotencyError::CorruptedRecord,
            ),
        },
{
    if record.status_code < 0 {
        return Err(IdempotencyError::CorruptedRecord);
    }
    let status = record.status_code as u16;
    if !status_code_accepted(status) {
        return Err(IdempotencyError::CorruptedRecord);
    }
    Ok(
        CapturedResponse {
            status,
            headers: copy_headers(&record.headers),
            body: copy_bytes(&record.body),
        },
    )
}

/// Replaying what was captured gives the same response back, for every valid status;
/// in particular every header line comes back, duplicates and order included.
pub proof fn lemma_capture_replay_round_trip(r: ResponseView)
    requires
        is_valid_status(r.status as int),
    ensures
        replay_spec(capture_spec(r)) == Some(r),
{
}

} // verus!
