//! Paging of list answers and the envelopes that answers are wrapped in.
use vstd::prelude::*;

verus! {

/// The default page number when a request names none.
pub const DEFAULT_PAGE: u32 = 1;

/// The default page size when a request names none.
pub const DEFAULT_PAGE_SIZE: u32 = 20;

/// The largest page size a request may ask for.
pub const MAX_PAGE_SIZE: u32 = 200;

/// The paging a request asks for, each part optional.
#[derive(Clone, Copy, Debug)]
pub struct Pagination {
    pub page: Option<u32>,
    pub page_size: Option<u32>,
}

/// A paging with defaults filled in and limits applied.
#[derive(Clone, Copy, Debug)]
pub struct NormalizedPagination {
    pub page: u32,
    pub page_size: u32,
}

/// Paging information that accompanies a page of results.
#[derive(Clone, Copy, Debug)]
pub struct PageMeta {
    pub page: u32,
    pub page_size: u32,
    pub total: u64,
}

/// A single result wrapped as the `data` of an answer.
#[derive(Clone, Debug)]
pub struct ApiResponse<T> {
    pub data: T,
}

/// One page of results together with its paging information.
#[derive(Clone, Debug)]
pub struct PageResponse<T> {
    pub data: Vec<T>,
    pub meta: PageMeta,
}

/// The page number after normalising: at least 1, 1 when absent.
pub open spec fn normalized_page(page: Option<u32>) -> u32 {
    match page {
        Some(p) => if p < 1 { 1 } else { p },
        None => 1,
    }
}

/// The page size after normalising: clamped to 1..=200, 20 when absent.
pub open spec fn normalized_page_size(page_size: Option<u32>) -> u32 {
    match page_size {
        Some(s) => if s < 1 { 1 } else if s > 200 { 200 } else { s },
        None => 20,
    }
}

impl NormalizedPagination {
    /// The offset of the first row of this page is representable.
    pub open spec fn offset_fits(self) -> bool {
        self.page >= 1 && (self.page - 1) * self.page_size <= u32::MAX
    }
}

impl Pagination {
    /// Fills in the defaults and clamps the page to at least 1 and the page
    /// size to 1..=200.
    pub fn normalized(self) -> (r: NormalizedPagination)
        ensures
            r.page == normalized_page(self.page),
            r.page_size == normalized_page_size(self.page_size),
    {
        let page = match self.page {
            Some(p) => p,
            None => DEFAULT_PAGE,
        };
        let page = if page < 1 { 1 } else { page };
        let page_size = match self.page_size {
            Some(s) => s,
            None => DEFAULT_PAGE_SIZE,
        };
        let page_size = if page_size < 1 {
            1
        } else if page_size > MAX_PAGE_SIZE {
            MAX_PAGE_SIZE
        } else {
            page_size
        };
        NormalizedPagination { page, page_size }
    }
}

impl NormalizedPagination {
    /// The number of rows on a page.
    pub fn limit(self) -> (r: i64)
        ensures
            r == self.page_size,
    {
        self.page_size as i64
    }

    /// The number of rows before this page.
    pub fn offset(self) -> (r: i64)
        requires
            self.offset_fits(),
        ensures
            r == (self.page - 1) * self.page_size,
    {
        ((self.page - 1) * self.page_size) as i64
    }

    /// The paging information for a result set of `total` rows; a negative
    /// total counts as zero.
    pub fn meta(self, total: i64) -> (r: PageMeta)
        ensures
            r.page == self.page,
            r.page_size == self.page_size,
            r.total == (if total < 0 { 0 } else { total as int }),
    {
        let total = if total < 0 { 0 } else { total };
        PageMeta { page: self.page, page_size: self.page_size, total: total as u64 }
    }
}

/// Wraps a single result.
pub fn data<T>(value: T) -> (r: ApiResponse<T>)
    ensures
        r.data == value,
{
    ApiResponse { data: value }
}

/// Wraps one page of results with its paging information.
pub fn page<T>(items: Vec<T>, pagination: NormalizedPagination, total: i64) -> (r: PageResponse<T>)
    ensures
        r.data@ == items@,
        r.meta.page == pagination.page,
        r.meta.page_size == pagination.page_size,
        r.meta.total == (if total < 0 { 0 } else { total as int }),
{
    PageResponse { data: items, meta: pagination.meta(total) }
}

/// Normalising keeps the page at least 1 and the page size within 1..=200,
/// and a normalised paging has a representable offset when the page is
/// small enough.
pub proof fn lemma_normalized_bounds(p: Pagination)
    ensures
        normalized_page(p.page) >= 1,
        1 <= normalized_page_size(p.page_size) <= 200,
        normalized_page(p.page) <= 21474837 ==> (NormalizedPagination {
            page: normalized_page(p.page),
            page_size: normalized_page_size(p.page_size),
        }).offset_fits(),
{
    let page = normalized_page(p.page);
    let size = normalized_page_size(p.page_size);
    if page <= 21474837 {
        assert((page - 1) * size <= 21474836 * 200) by (nonlinear_arith)
            requires
                1 <= page <= 21474837,
                1 <= size <= 200,
        ;
    }
}

/// Normalising a paging that is already normal changes nothing.
pub proof fn lemma_normalized_idempotent(p: Pagination)
    ensures
        normalized_page(Some(normalized_page(p.page))) == normalized_page(p.page),
        normalized_page_size(Some(normalized_page_size(p.page_size))) == normalized_page_size(
            p.page_size,
        ),
{
}

} // verus!
