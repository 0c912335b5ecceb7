use vstd::prelude::*;

use crate::errors::IdempotencyError;
use super::key::{IdempotencyKey, is_valid_key};
use super::ledger::{EntryView, Ledger, LedgerKey};
use super::response::{
    CapturedResponse, RecordView, ResponseView, SavedResponse, capture, capture_spec,
    is_valid_status, replay, replay_spec,
};

verus! {

/// What to do with a request whose key has been checked against the ledger.
#[derive(Debug)]
pub enum NextAction {
    /// First time this (identity, key) is seen: run the handler.
    StartProcessing,
    /// Already answered: give back the stored response.
    ReturnSavedResponse(CapturedResponse),
}

/// How a request is admitted by the ledger, before anything runs.
pub enum Admission {
    /// The header carried no usable key.
    Rejected(IdempotencyError),
    /// The (identity, key) row was absent: this request runs the handler.
    Fresh,
    /// A completed row: its response is given back.
    Replayed(ResponseView),
    /// A row without response, or one that cannot be decoded.
    Failed(IdempotencyError),
}

/// The `Idempotency-Key` header of a request, as the HTTP layer found it.
#[derive(Debug)]
pub enum KeyHeader {
    /// No such header.
    Absent,
    /// A header whose value is not visible text.
    NotText,
    /// A header with this text.
    Text(String),
}

/// What a `KeyHeader` holds.
pub enum HeaderText {
    Absent,
    NotText,
    Text(Seq<char>),
}

impl View for KeyHeader {
    type V = HeaderText;

    open spec fn view(&self) -> HeaderText {
        match self {
            KeyHeader::Absent => HeaderText::Absent,
            KeyHeader::NotText => HeaderText::NotText,
            KeyHeader::Text(t) => HeaderText::Text(t@),
        }
    }
}

/// The key that a header gives, or why it gives none: no header is a missing key, a
/// value that is not text or no valid key is a malformed one.
pub open spec fn header_key(header: HeaderText) -> Result<Seq<char>, IdempotencyError> {
    match header {
        HeaderText::Absent => Err(IdempotencyError::MissingIdempotencyKey),
        HeaderText::NotText => Err(IdempotencyError::InvalidKeyFormat),
        HeaderText::Text(h) => if is_valid_key(h) {
            Ok(h)
        } else {
            Err(IdempotencyError::InvalidKeyFormat)
        },
    }
}

/// How the ledger `l` admits a request for row `k`.
pub open spec fn admission_for(l: Map<LedgerKey, EntryView>, k: LedgerKey) -> Admission {
    if !l.contains_key(k) {
        Admission::Fresh
    } else {
        match l[k].response {
            None => Admission::Failed(IdempotencyError::UnexpectedError),
            Some(rec) => match replay_spec(rec) {
                Some(v) => Admission::Replayed(v),
                None => Admission::Failed(IdempotencyError::CorruptedRecord),
            },
        }
    }
}

/// How the ledger `l` admits a request with this header from this caller.
pub open spec fn admission(
    l: Map<LedgerKey, EntryView>,
    header: HeaderText,
    identity: Option<u128>,
) -> Admission {
    match header_key(header) {
        Err(e) => Admission::Rejected(e),
        Ok(h) => admission_for(l, (identity, h)),
    }
}

/// Reads the key from the `Idempotency-Key` header.
pub fn get_idempotency_key(header: KeyHeader) -> (r: Result<IdempotencyKey, IdempotencyError>)
    ensures
        match header_key(header@) {
            Ok(h) => r is Ok && r->Ok_0@ == h && r->Ok_0.wf(),
            Err(e) => r == Err::<IdempotencyKey, IdempotencyError>(e),
        },
{
    match header {
        KeyHeader::Absent => Err(IdempotencyError::MissingIdempotencyKey),
        KeyHeader::NotText => Err(IdempotencyError::InvalidKeyFormat),
        KeyHeader::Text(h) => match IdempotencyKey::validate(h) {
            Ok(k) => Ok(k),
            Err(_) => Err(IdempotencyError::InvalidKeyFormat),
        },
    }
}

/// The stored response for (`identity`, `key`), decoded: `None` when there is no row
/// or its response is not set, `CorruptedRecord` when it cannot be decoded.
pub fn get_saved_response(ledger: &Ledger, key: &IdempotencyKey, identity: Option<u128>) -> (r: Result<
    Option<CapturedResponse>,
    IdempotencyError,
>)
    requires
        ledger.wf(),
    ensures
        !ledger@.contains_key((identity, key@)) || ledger@[(identity, key@)].response is None
            ==> r is Ok && r->Ok_0 is None,
        ledger@.contains_key((identity, key@)) && ledger@[(identity, key@)].response is Some ==> match replay_spec(ledger@[(identity, key@)].response->Some_0) {
            Some(v) => r is Ok && r->Ok_0 is Some && r->Ok_0->Some_0@ == v,
            None => r == Err::<Option<CapturedResponse>, IdempotencyError>(IdempotencyError::CorruptedRecord),
        },
{
    match ledger.fetch_response(identity, key) {
        None => Ok(None),
        Some(saved) => match replay(saved) {
            Ok(resp) => Ok(Some(resp)),
            Err(e) => Err(e),
        },
    }
}

/// Inserts the row for (`identity`, `key`) if it is absent, which makes this request
/// the one that runs the handler; otherwise replays the stored response, or fails
/// when the row has none yet.
pub fn try_processing(ledger: &mut Ledger, key: &IdempotencyKey, identity: Option<u128>, now: i64) -> (r: Result<NextAction, IdempotencyError>)
    requires
        old(ledger).wf(),
    ensures
        final(ledger).wf(),
        match admission_for(old(ledger)@, (identity, key@)) {
            Admission::Fresh => r is Ok && r->Ok_0 is StartProcessing && final(ledger)@ == old(ledger)@.insert(
                (identity, key@),
                EntryView { created_at: now, response: None },
            ),
            Admission::Replayed(v) => r is Ok && r->Ok_0 is ReturnSavedResponse
                && r->Ok_0->ReturnSavedResponse_0@ == v && final(ledger)@ == old(ledger)@,
            Admission::Failed(e) => r == Err::<NextAction, IdempotencyError>(e) && final(ledger)@ == old(ledger)@,
            Admission::Rejected(_) => false,
        },
{
    let inserted = ledger.try_insert(identity, key, now);
    if inserted > 0 {
        next_action_after_insert(inserted, None)
    } else {
        next_action_after_insert(inserted, ledger.fetch_response(identity, key))
    }
}

/// The step after the insert-if-absent of a row: a row inserted means this request
/// runs the handler; otherwise the existing row's stored response (`None` when it
/// has none yet) is replayed, or the request fails as `replay_saved` says.
pub fn next_action_after_insert(rows_inserted: u64, saved: Option<&SavedResponse>) -> (r: Result<NextAction, IdempotencyError>)
    ensures
        rows_inserted > 0 ==> r is Ok && r->Ok_0 is StartProcessing,
        rows_inserted == 0 ==> match saved_view(saved) {
            None => r == Err::<NextAction, IdempotencyError>(IdempotencyError::UnexpectedError),
            Some(rec) => match replay_spec(rec) {
                Some(v) => r is Ok && r->Ok_0 is ReturnSavedResponse && r->Ok_0->ReturnSavedResponse_0@ == v,
                None => r == Err::<NextAction, IdempotencyError>(IdempotencyError::CorruptedRecord),
            },
        },
{
    if rows_inserted > 0 {
        Ok(NextAction::StartProcessing)
    } else {
        match replay_saved(saved) {
            Ok(resp) => Ok(NextAction::ReturnSavedResponse(resp)),
            Err(e) => Err(e),
        }
    }
}

/// The stored record, if there is one.
pub open spec fn saved_view(saved: Option<&SavedResponse>) -> Option<RecordView> {
    match saved {
        Some(s) => Some(s@),
        None => None,
    }
}

/// The answer to a request whose row already exists, from the row's stored response:
/// none yet is `UnexpectedError` (the first request is still running, or failed), and a
/// record that cannot be decoded is `CorruptedRecord`.
pub fn replay_saved(saved: Option<&SavedResponse>) -> (r: Result<CapturedResponse, IdempotencyError>)
    ensures
        match saved_view(saved) {
            None => r == Err::<CapturedResponse, IdempotencyError>(IdempotencyError::UnexpectedError),
            Some(rec) => match replay_spec(rec) {
                Some(v) => r is Ok && r->Ok_0@ == v,
                None => r == Err::<CapturedResponse, IdempotencyError>(IdempotencyError::CorruptedRecord),
            },
        },
{
    match saved {
        None => Err(IdempotencyError::UnexpectedError),
        Some(s) => replay(s),
    }
}

/// Stores the response, which has a valid HTTP status, in the row for (`identity`,
/// `key`) and hands the same response back to be sent.
pub fn save_response(ledger: &mut Ledger, key: &IdempotencyKey, identity: Option<u128>, response: CapturedResponse) -> (r: CapturedResponse)
    requires
        old(ledger).wf(),
        is_valid_status(response.status as int),
    ensures
        final(ledger).wf(),
        r == response,
        old(ledger)@.contains_key((identity, key@)) ==> final(ledger)@ == old(ledger)@.insert(
            (identity, key@),
            EntryView {
                created_at: old(ledger)@[(identity, key@)].created_at,
                response: Some(capture_spec(response@)),
            },
        ),
        !old(ledger)@.contains_key((identity, key@)) ==> final(ledger)@ == old(ledger)@,
{
    let saved = capture(&response);
    ledger.store_response(identity, key, saved);
    response
}

/// Why `execute_idempotent` gave no response.
#[derive(Debug)]
pub enum ExecuteError<E> {
    Idempotency(IdempotencyError),
    Handler(E),
}

/// Runs `operation` at most once per (identity, key). The key comes from the header;
/// every response `operation` gives has a valid HTTP status.
/// A fresh request runs `operation` on the current state; on success its new state is
/// kept and its response stored and returned; on failure the state is left as it was,
/// the row stays without response, and the handler's error is passed on. A request
/// whose row is complete gets the stored response and runs nothing.
pub fn execute_idempotent<S, E, F>(
    ledger: &mut Ledger,
    state: &mut S,
    header: KeyHeader,
    identity: Option<u128>,
    now: i64,
    operation: F,
) -> (r: Result<CapturedResponse, ExecuteError<E>>)
    where
        F: FnOnce(&S) -> Result<(S, CapturedResponse), E>,
    requires
        old(ledger).wf(),
        operation.requires((&*old(state),)),
        forall|res: Result<(S, CapturedResponse), E>|
            #[trigger] operation.ensures((&*old(state),), res) && res is Ok ==> is_valid_status(
                res->Ok_0.1.status as int,
            ),
    ensures
        final(ledger).wf(),
        match admission(old(ledger)@, header@, identity) {
            Admission::Rejected(e) => r == Err::<CapturedResponse, ExecuteError<E>>(ExecuteError::Idempotency(e))
                && final(ledger)@ == old(ledger)@ && *final(state) == *old(state),
            Admission::Failed(e) => r == Err::<CapturedResponse, ExecuteError<E>>(ExecuteError::Idempotency(e))
                && final(ledger)@ == old(ledger)@ && *final(state) == *old(state),
            Admission::Replayed(v) => r is Ok && r->Ok_0@ == v
                && final(ledger)@ == old(ledger)@ && *final(state) == *old(state),
            Admission::Fresh => {
                let k = (identity, header@->Text_0);
                match r {
                    Ok(resp) => operation.ensures((&*old(state),), Ok::<(S, CapturedResponse), E>((*final(state), resp)))
                        && replay_spec(capture_spec(resp@)) == Some(resp@)
                        && final(ledger)@ == old(ledger)@.insert(k, EntryView { created_at: now, response: Some(capture_spec(resp@)) }),
                    Err(ExecuteError::Handler(e)) => operation.ensures((&*old(state),), Err::<(S, CapturedResponse), E>(e))
                        && *final(state) == *old(state)
                        && final(ledger)@ == old(ledger)@.insert(k, EntryView { created_at: now, response: None }),
                    Err(ExecuteError::Idempotency(_)) => false,
                }
            },
        },
{
    let key = match get_idempotency_key(header) {
        Ok(k) => k,
        Err(e) => return Err(ExecuteError::Idempotency(e)),
    };
    match try_processing(ledger, &key, identity, now) {
        Err(e) => Err(ExecuteError::Idempotency(e)),
        Ok(NextAction::ReturnSavedResponse(saved)) => Ok(saved),
        Ok(NextAction::StartProcessing) => match operation(&*state) {
            Ok((next, response)) => {
                *state = next;
                Ok(save_response(ledger, &key, identity, response))
            },
            Err(e) => Err(ExecuteError::Handler(e)),
        },
    }
}

/// A retry with the same key and identity, after a first run that stored its response,
/// is answered with exactly that response, and runs nothing.
pub proof fn lemma_retry_replays_first_response(
    l: Map<LedgerKey, EntryView>,
    header: HeaderText,
    identity: Option<u128>,
    now: i64,
    resp: ResponseView,
)
    requires
        admission(l, header, identity) is Fresh,
        is_valid_status(resp.status as int),
    ensures
        admission(
            l.insert((identity, header->Text_0), EntryView { created_at: now, response: Some(capture_spec(resp)) }),
            header,
            identity,
        ) == Admission::Replayed(resp),
{
}

/// Once a row holds a response, every later request for that row, from however many
/// callers, is answered with that same response.
pub proof fn lemma_completed_row_replays_to_all(
    l: Map<LedgerKey, EntryView>,
    header: HeaderText,
    identity: Option<u128>,
    resp: ResponseView,
)
    requires
        header_key(header) is Ok,
        l.contains_key((identity, header->Text_0)),
        l[(identity, header->Text_0)].response == Some(capture_spec(resp)),
        is_valid_status(resp.status as int),
    ensures
        admission(l, header, identity) == Admission::Replayed(resp),
{
}

/// A row taken by one caller leaves every other caller's admission for the same key
/// unchanged: distinct identities never collide.
pub proof fn lemma_identities_do_not_collide(
    l: Map<LedgerKey, EntryView>,
    header: HeaderText,
    a: Option<u128>,
    b: Option<u128>,
    entry: EntryView,
)
    requires
        a != b,
        header_key(header) is Ok,
    ensures
        admission(l.insert((a, header->Text_0), entry), header, b) == admission(l, header, b),
{
}

/// Once the row for (identity, key) exists, no request with that key and identity is
/// admitted as fresh again, so at most one of them ever runs the handler. With no
/// identity this holds across all anonymous callers, who share one row per key.
pub proof fn lemma_taken_row_never_fresh(
    l: Map<LedgerKey, EntryView>,
    header: HeaderText,
    identity: Option<u128>,
)
    requires
        header_key(header) is Ok,
        l.contains_key((identity, header->Text_0)),
    ensures
        !(admission(l, header, identity) is Fresh),
{
}

} // verus!
