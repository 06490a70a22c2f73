use vstd::prelude::*;
use crate::response::ErrCode;

verus! {

/// A window of a listing: skip `offset` rows, then return at most `limit`.
#[derive(Debug, Clone, Copy, PartialEq, Eq, Structural)]
pub struct Pagination {
    pub offset: i64,
    pub limit: i64,
}

/// Paging as a client asks for it: a 1-based page number and a page size,
/// either of which may be left out.
#[derive(Debug, Clone, Copy, PartialEq, Eq, Structural)]
pub struct PageParams {
    pub page: Option<i64>,
    pub size: Option<i64>,
}

impl Default for PageParams {
    fn default() -> (r: Self)
        ensures
            r.page is None && r.size is None,
    {
        PageParams { page: None, size: None }
    }
}

/// The page number asked for; the first page when none is given.
pub open spec fn requested_page(p: PageParams) -> i64 {
    match p.page {
        Some(n) => n,
        None => 1,
    }
}

/// The page size asked for; ten rows when none is given.
pub open spec fn requested_size(p: PageParams) -> i64 {
    match p.size {
        Some(n) => n,
        None => 10,
    }
}

/// A page number of at least 1 and a page size from 1 to 100.
pub open spec fn valid_paging(p: PageParams) -> bool {
    requested_page(p) >= 1 && 1 <= requested_size(p) <= 100
}

/// The window that valid paging asks for: the rows of the earlier pages
/// are skipped.
pub open spec fn window_of(p: PageParams) -> Pagination {
    Pagination {
        offset: ((requested_page(p) - 1) * requested_size(p)) as i64,
        limit: requested_size(p),
    }
}

/// The offset of the requested page fits an `i64` (always so for any page
/// that a listing of fewer than 2^63 rows can have).
pub open spec fn offset_fits(p: PageParams) -> bool {
    valid_paging(p) ==> (requested_page(p) - 1) * requested_size(p) <= i64::MAX
}

impl PageParams {
    /// Turns the client's paging into a window over the listing, refusing a
    /// page number below 1 or a page size outside 1 to 100.
    pub fn to_pagination(&self) -> (r: Result<Pagination, ErrCode>)
        requires
            offset_fits(*self),
        ensures
            valid_paging(*self) ==> r == Ok::<Pagination, ErrCode>(window_of(*self)),
            !valid_paging(*self) ==> r == Err::<Pagination, ErrCode>(ErrCode::InputArgsError),
    {
        let limit = match self.size {
            Some(n) => n,
            None => 10,
        };
        let page = match self.page {
            Some(n) => n,
            None => 1,
        };
        if page < 1 {
            return Err(ErrCode::InputArgsError);
        }
        if !(1 <= limit && limit <= 100) {
            return Err(ErrCode::InputArgsError);
        }
        let offset = (page - 1) * limit;
        Ok(Pagination { offset, limit })
    }
}

/// A valid request never skips a negative number of rows, never asks for
/// more than a hundred rows, and consecutive pages are adjacent windows.
pub proof fn lemma_pages_tile(p: PageParams, q: PageParams)
    requires
        valid_paging(p),
        valid_paging(q),
        requested_size(p) == requested_size(q),
        requested_page(q) == requested_page(p) + 1,
        offset_fits(p),
        offset_fits(q),
    ensures
        window_of(p).offset >= 0,
        1 <= window_of(p).limit <= 100,
        window_of(q).offset == window_of(p).offset + window_of(p).limit,
{
    let s = requested_size(p) as int;
    let n = requested_page(p) as int;
    assert((n - 1) * s >= 0) by (nonlinear_arith)
        requires
            n >= 1,
            s >= 1,
    ;
    assert(n * s == (n - 1) * s + s) by (nonlinear_arith);
}

/// Paging is accepted exactly when the page number, if given, is at least 1
/// and the page size, if given, is from 1 to 100 (10 rows of page 1 when
/// neither is given), and then the window skips the rows of the earlier
/// pages and takes one page of rows.
pub proof fn lemma_paging_accepted(p: PageParams)
    ensures
        valid_paging(p) <==> ((p.page is None || p.page->0 >= 1) && (p.size is None || (1
            <= p.size->0 && p.size->0 <= 100))),
        forall|n: i64, s: i64|
            p.page == Some(n) && p.size == Some(s) && n >= 1 && 1 <= s <= 100 && (n - 1) * s
                <= i64::MAX ==> #[trigger] valid_paging(p) && window_of(p) == (Pagination {
                offset: ((n - 1) * s) as i64,
                limit: s,
            }),
        p.page is None && p.size is None ==> valid_paging(p) && window_of(p) == (Pagination {
            offset: 0,
            limit: 10,
        }),
{
}

} // verus!
