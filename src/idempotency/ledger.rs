use vstd::prelude::*;

use super::key::IdempotencyKey;
use super::response::{SavedResponse, RecordView};

verus! {

/// A row is found by caller identity and key text; all anonymous callers share the
/// `None` identity, so their equal keys meet in one row.
pub type LedgerKey = (Option<u128>, Seq<char>);

/// What a row holds: when it was created, and the stored response once there is one.
pub struct EntryView {
    pub created_at: i64,
    pub response: Option<RecordView>,
}

/// One row of the ledger.
#[derive(Debug)]
pub struct LedgerEntry {
    pub identity: Option<u128>,
    pub key: String,
    pub created_at: i64,
    pub response: Option<SavedResponse>,
}

impl LedgerEntry {
    /// The (identity, key) under which the row is found.
    pub open spec fn ledger_key(&self) -> LedgerKey {
        (self.identity, self.key@)
    }

    /// What the row holds.
    pub open spec fn entry_view(&self) -> EntryView {
        EntryView {
            created_at: self.created_at,
            response: match self.response {
                Some(r) => Some(r@),
                None => None,
            },
        }
    }
}

/// The row for `k` among `rows`, searched from the last one.
pub open spec fn lookup(rows: Seq<LedgerEntry>, k: LedgerKey) -> Option<EntryView>
    decreases rows.len(),
{
    if rows.len() == 0 {
        None
    } else if rows.last().ledger_key() == k {
        Some(rows.last().entry_view())
    } else {
        lookup(rows.drop_last(), k)
    }
}

/// No two rows share a key.
pub open spec fn keys_unique(rows: Seq<LedgerEntry>) -> bool {
    forall|i: int, j: int|
        0 <= i < rows.len() && 0 <= j < rows.len() && i != j ==> rows[i].ledger_key()
            != rows[j].ledger_key()
}

proof fn lemma_lookup_absent(rows: Seq<LedgerEntry>, k: LedgerKey)
    requires
        forall|i: int| 0 <= i < rows.len() ==> rows[i].ledger_key() != k,
    ensures
        lookup(rows, k) is None,
    decreases rows.len(),
{
    if rows.len() > 0 {
        lemma_lookup_absent(rows.drop_last(), k);
    }
}

proof fn lemma_lookup_present(rows: Seq<LedgerEntry>, i: int)
    requires
        keys_unique(rows),
        0 <= i < rows.len(),
    ensures
        lookup(rows, rows[i].ledger_key()) == Some(rows[i].entry_view()),
    decreases rows.len(),
{
    if i != rows.len() - 1 {
        let d = rows.drop_last();
        assert(rows[rows.len() - 1].ledger_key() != rows[i].ledger_key());
        assert(d[i] == rows[i]);
        lemma_lookup_present(d, i);
    }
}

/// The table of requests seen, keyed by (identity, key). Rows are only ever added,
/// and a row's response is written only by `store_response`.
#[derive(Debug)]
pub struct Ledger {
    rows: Vec<LedgerEntry>,
}

impl View for Ledger {
    type V = Map<LedgerKey, EntryView>;

    closed spec fn view(&self) -> Map<LedgerKey, EntryView> {
        Map::new(|k: LedgerKey| lookup(self.rows@, k) is Some, |k: LedgerKey| lookup(self.rows@, k)->Some_0)
    }
}

fn same_identity(a: Option<u128>, b: Option<u128>) -> (r: bool)
    ensures
        r == (a == b),
{
    match (a, b) {
        (Some(x), Some(y)) => x == y,
        (None, None) => true,
        _ => false,
    }
}

impl Ledger {
    /// No two rows share an (identity, key).
    pub closed spec fn wf(&self) -> bool {
        keys_unique(self.rows@)
    }

    proof fn lemma_view(&self, k: LedgerKey)
        requires
            self.wf(),
        ensures
            self@.contains_key(k) <==> exists|i: int| 0 <= i < self.rows@.len() && #[trigger] self.rows@[i].ledger_key() == k,
            forall|i: int| 0 <= i < self.rows@.len() && #[trigger] self.rows@[i].ledger_key() == k ==> self@[k] == self.rows@[i].entry_view(),
    {
        if exists|i: int| 0 <= i < self.rows@.len() && #[trigger] self.rows@[i].ledger_key() == k {
            let i = choose|i: int| 0 <= i < self.rows@.len() && #[trigger] self.rows@[i].ledger_key() == k;
            lemma_lookup_present(self.rows@, i);
        } else {
            lemma_lookup_absent(self.rows@, k);
        }
        assert forall|i: int| 0 <= i < self.rows@.len() && #[trigger] self.rows@[i].ledger_key() == k implies self@[k] == self.rows@[i].entry_view() by {
            lemma_lookup_present(self.rows@, i);
        }
    }

    /// An empty ledger.
    pub fn new() -> (r: Ledger)
        ensures
            r.wf(),
            r@ == Map::<LedgerKey, EntryView>::empty(),
    {
        let r = Ledger { rows: Vec::new() };
        assert(r@ =~= Map::<LedgerKey, EntryView>::empty());
        r
    }

    fn find(&self, identity: Option<u128>, key: &IdempotencyKey) -> (r: Option<usize>)
        requires
            self.wf(),
        ensures
            match r {
                Some(i) => i < self.rows@.len() && self.rows@[i as int].ledger_key() == (identity, key@)
                    && self@.contains_key((identity, key@))
                    && self@[(identity, key@)] == self.rows@[i as int].entry_view(),
                None => !self@.contains_key((identity, key@)),
            },
    {
        let text = key.as_string();
        let mut i: usize = 0;
        while i < self.rows.len()
            invariant
                i <= self.rows@.len(),
                self.wf(),
                text@ == key@,
                forall|j: int| 0 <= j < i ==> #[trigger] self.rows@[j].ledger_key() != (identity, key@),
            decreases self.rows@.len() - i,
        {
            let row = &self.rows[i];
            if same_identity(row.identity, identity) && row.key == *text {
                proof {
                    self.lemma_view((identity, key@));
                }
                return Some(i);
            }
            i = i + 1;
        }
        proof {
            self.lemma_view((identity, key@));
        }
        None
    }
    /// Inserts a fresh row for (`identity`, `key`) created at `now`, unless that row
    /// exists. Gives the number of rows inserted: 1, or 0 when the row was there.
    pub fn try_insert(&mut self, identity: Option<u128>, key: &IdempotencyKey, now: i64) -> (r: u64)
        requires
            old(self).wf(),
        ensures
            final(self).wf(),
            old(self)@.contains_key((identity, key@)) ==> r == 0 && final(self)@ == old(self)@,
            !old(self)@.contains_key((identity, key@)) ==> r == 1 && final(self)@ == old(self)@.insert(
                (identity, key@),
                EntryView { created_at: now, response: None },
            ),
    {
        match self.find(identity, key) {
            Some(_) => 0,
            None => {
                let entry = LedgerEntry {
                    identity,
                    key: key.as_string().clone(),
                    created_at: now,
                    response: None,
                };
                let ghost k = (identity, key@);
                let ghost before = self.rows@;
                proof {
                    self.lemma_view(k);
                    assert forall|i: int| 0 <= i < before.len() implies #[trigger] before[i].ledger_key() != k by {}
                }
                self.rows.push(entry);
                proof {
                    let rows = self.rows@;
                    assert(rows.drop_last() =~= before);
                    assert forall|kk: LedgerKey| #[trigger] lookup(rows, kk) == if kk == k {
                        Some(EntryView { created_at: now, response: None })
                    } else {
                        lookup(before, kk)
                    } by {}
                    let want = old(self)@.insert(k, EntryView { created_at: now, response: None });
                    assert(self@ =~= want);
                }
                1
            },
        }
    }

    /// The stored response of the row for (`identity`, `key`); `None` when there is
    /// no such row or its response is not set yet.
    pub fn fetch_response(&self, identity: Option<u128>, key: &IdempotencyKey) -> (r: Option<&SavedResponse>)
        requires
            self.wf(),
        ensures
            match r {
                Some(s) => self@.contains_key((identity, key@)) && self@[(identity, key@)].response == Some(s@),
                None => !self@.contains_key((identity, key@)) || self@[(identity, key@)].response is None,
            },
    {
        match self.find(identity, key) {
            Some(i) => {
                proof {
                    self.lemma_view((identity, key@));
                }
                match &self.rows[i].response {
                    Some(s) => Some(s),
                    None => None,
                }
            },
            None => None,
        }
    }

    /// Sets the response of the row for (`identity`, `key`); no other row changes.
    /// Gives the number of rows updated: 1, or 0 when there is no such row.
    pub fn store_response(&mut self, identity: Option<u128>, key: &IdempotencyKey, response: SavedResponse) -> (r: u64)
        requires
            old(self).wf(),
        ensures
            final(self).wf(),
            !old(self)@.contains_key((identity, key@)) ==> r == 0 && final(self)@ == old(self)@,
            old(self)@.contains_key((identity, key@)) ==> r == 1 && final(self)@ == old(self)@.insert(
                (identity, key@),
                EntryView {
                    created_at: old(self)@[(identity, key@)].created_at,
                    response: Some(response@),
                },
            ),
    {
        match self.find(identity, key) {
            None => 0,
            Some(i) => {
                let ghost k = (identity, key@);
                let ghost before = self.rows@;
                let ghost rv = response@;
                proof {
                    self.lemma_view(k);
                }
                self.rows[i].response = Some(response);
                proof {
                    let rows = self.rows@;
                    assert forall|a: int, b: int| 0 <= a < rows.len() && 0 <= b < rows.len() && a != b
                        implies rows[a].ledger_key() != rows[b].ledger_key() by {
                        assert(before[a].ledger_key() == rows[a].ledger_key());
                        assert(before[b].ledger_key() == rows[b].ledger_key());
                    }
                    self.lemma_view(k);
                    let want = old(self)@.insert(k, EntryView { created_at: old(self)@[k].created_at, response: Some(rv) });
                    assert forall|kk: LedgerKey| #[trigger] self@.contains_key(kk) == want.contains_key(kk)
                        && (self@.contains_key(kk) ==> self@[kk] == want[kk]) by {
                        self.lemma_view(kk);
                        old(self).lemma_view(kk);
                        if kk != k {
                            if self@.contains_key(kk) {
                                let j = choose|j: int| 0 <= j < rows.len() && #[trigger] rows[j].ledger_key() == kk;
                                assert(j != i);
                                assert(rows[j] == before[j]);
                                assert(old(self)@.contains_key(kk));
                            }
                            if old(self)@.contains_key(kk) {
                                let j = choose|j: int| 0 <= j < before.len() && #[trigger] before[j].ledger_key() == kk;
                                assert(j != i);
                                assert(rows[j] == before[j]);
                                assert(self@.contains_key(kk));
                            }
                        } else {
                            assert(rows[i as int].ledger_key() == k);
                        }
                    }
                    assert(self@ =~= want);
                }
                1
            },
        }
    }
}

} // verus!
