use vstd::prelude::*;

verus! {

/// The page asked for when a query names none.
pub fn default_page() -> (r: i64)
    ensures
        r == 1,
{
    1
}

/// The page size used when a query names none, and the largest one served.
pub fn default_page_size() -> (r: i64)
    ensures
        r == 20,
{
    20
}

/// A request for one page of a listing, as the client sent it.
#[derive(Debug, Clone, Copy)]
pub struct PaginationQuery {
    pub page: i64,
    pub page_size: i64,
}

/// The page served: at least the first.
pub open spec fn effective_page(q: PaginationQuery) -> int {
    if q.page < 1 {
        1
    } else {
        q.page as int
    }
}

/// The page size served: between 1 and 20.
pub open spec fn effective_page_size(q: PaginationQuery) -> int {
    if q.page_size < 1 {
        1
    } else if q.page_size > 20 {
        20
    } else {
        q.page_size as int
    }
}

/// The number of rows that come before the page served.
pub open spec fn offset_of(q: PaginationQuery) -> int {
    (effective_page(q) - 1) * effective_page_size(q)
}

impl PaginationQuery {
    pub fn page(&self) -> (r: i64)
        ensures
            r == effective_page(*self),
    {
        if self.page < 1 {
            1
        } else {
            self.page
        }
    }

    pub fn page_size(&self) -> (r: i64)
        ensures
            r == effective_page_size(*self),
    {
        if self.page_size < 1 {
            1
        } else if self.page_size > 20 {
            20
        } else {
            self.page_size
        }
    }

    /// How many rows to fetch.
    pub fn limit(&self) -> (r: i64)
        ensures
            r == effective_page_size(*self),
    {
        self.page_size()
    }

    /// How many rows to skip; it must fit in an `i64`.
    pub fn offset(&self) -> (r: i64)
        requires
            offset_of(*self) <= i64::MAX,
        ensures
            r == offset_of(*self),
    {
        let p = self.page();
        let s = self.page_size();
        proof {
            assert(0 <= (p - 1) * s) by (nonlinear_arith)
                requires
                    p >= 1,
                    s >= 1,
            ;
        }
        (p - 1) * s
    }
}

/// Integer division rounding toward zero, as `/` does on Rust integers.
pub open spec fn trunc_div(a: int, b: int) -> int {
    if a >= 0 {
        a / b
    } else {
        -((-a) / b)
    }
}

/// The number of pages that `total` rows fill at `size` rows a page (rounded up for a
/// positive total).
pub open spec fn page_count(total: int, size: int) -> int {
    if total == 0 {
        0
    } else {
        trunc_div(total + size - 1, size)
    }
}

/// Where a page stands in the whole listing.
#[derive(Debug, Clone, Copy)]
pub struct PaginationMeta {
    pub page: i64,
    pub page_size: i64,
    pub total_items: i64,
    pub total_pages: i64,
}

impl PaginationMeta {
    /// The page facts for a listing of `total_items` rows served as `query` asks.
    pub fn from_total(total_items: i64, query: &PaginationQuery) -> (r: PaginationMeta)
        ensures
            r.page == effective_page(*query),
            r.page_size == effective_page_size(*query),
            r.total_items == total_items,
            r.total_pages == page_count(total_items as int, effective_page_size(*query)),
    {
        let page_size = query.page_size();
        let total_pages: i64 = if total_items == 0 {
            0
        } else if total_items > 0 {
            proof {
                let t = total_items as int;
                let z = page_size as int;
                assert((t + z - 1) / z == (t - 1) / z + 1) by (nonlinear_arith)
                    requires
                        t >= 1,
                        z >= 1,
                ;
                assert(0 <= (t - 1) / z <= t - 1) by (nonlinear_arith)
                    requires
                        t >= 1,
                        z >= 1,
                ;
            }
            (total_items - 1) / page_size + 1
        } else {
            let a: i64 = total_items + (page_size - 1);
            if a >= 0 {
                proof {
                    assert(0 <= a as int / page_size as int <= a) by (nonlinear_arith)
                        requires
                            a >= 0,
                            page_size >= 1,
                    ;
                }
                a / page_size
            } else {
                let m: u64 = (-(a as i128)) as u64;
                let q: u64 = m / (page_size as u64);
                proof {
                    assert(0 <= q <= m) by (nonlinear_arith)
                        requires
                            q == m as int / page_size as int,
                            page_size >= 1,
                    ;
                }
                -(q as i128) as i64
            }
        };
        PaginationMeta { page: query.page(), page_size, total_items, total_pages }
    }
}

/// One page of rows with its page facts.
#[derive(Debug)]
pub struct PaginatedResponse<T> {
    pub data: Vec<T>,
    pub pagination: PaginationMeta,
}

} // verus!
