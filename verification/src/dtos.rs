//! Request and response shapes, and pagination arithmetic.

use vstd::prelude::*;

pub mod admin;
pub mod auth;
pub mod category;
pub mod post;
pub mod tag;
pub mod user;

verus! {

/// Largest page size a request may ask for.
pub const MAX_PAGE_SIZE: u64 = 100;

/// Page size used where a request asks for none.
pub const DEFAULT_PAGE_SIZE: u64 = 10;

/// Page and page size as a request gave them, before adjustment.
#[derive(Clone, Copy, Debug)]
pub struct Pagination {
    page: u64,
    page_size: u64,
}

/// The page number used where a request names none.
pub fn default_page() -> (r: u64)
    ensures
        r == 1,
{
    1
}

/// The page size used where a request names none.
pub fn default_page_size() -> (r: u64)
    ensures
        r == DEFAULT_PAGE_SIZE,
{
    DEFAULT_PAGE_SIZE
}

/// The page number in effect: pages count from 1.
pub open spec fn effective_page(page: u64) -> u64 {
    if page == 0 {
        1
    } else {
        page
    }
}

/// The page size in effect: the default for 0, at most `MAX_PAGE_SIZE`.
pub open spec fn effective_page_size(page_size: u64) -> u64 {
    if page_size == 0 {
        DEFAULT_PAGE_SIZE
    } else if page_size > MAX_PAGE_SIZE {
        MAX_PAGE_SIZE
    } else {
        page_size
    }
}

/// The number of rows to skip: `(page - 1) * page_size`, held at
/// `i64::MAX` where the product is larger.
pub open spec fn effective_offset(page: u64, page_size: u64) -> i64 {
    let rows = (effective_page(page) - 1) * effective_page_size(page_size);
    if rows > i64::MAX {
        i64::MAX
    } else {
        rows as i64
    }
}

impl Pagination {
    /// Pagination as a request gave it.
    pub fn new(page: u64, page_size: u64) -> (p: Pagination)
        ensures
            p.raw_page() == page,
            p.raw_page_size() == page_size,
    {
        Pagination { page, page_size }
    }

    /// The page number as the request gave it.
    pub closed spec fn raw_page(&self) -> u64 {
        self.page
    }

    /// The page size as the request gave it.
    pub closed spec fn raw_page_size(&self) -> u64 {
        self.page_size
    }

    /// The page number in effect.
    pub fn page(&self) -> (r: u64)
        ensures
            r == effective_page(self.raw_page()),
            r >= 1,
    {
        if self.page == 0 {
            1
        } else {
            self.page
        }
    }

    /// The page size in effect.
    pub fn page_size(&self) -> (r: u64)
        ensures
            r == effective_page_size(self.raw_page_size()),
            1 <= r <= MAX_PAGE_SIZE,
    {
        if self.page_size == 0 {
            default_page_size()
        } else if self.page_size > MAX_PAGE_SIZE {
            MAX_PAGE_SIZE
        } else {
            self.page_size
        }
    }

    /// The row limit of the query for this page.
    pub fn limit(&self) -> (r: i64)
        ensures
            r == effective_page_size(self.raw_page_size()),
    {
        self.page_size() as i64
    }

    /// The number of rows the query for this page skips.
    pub fn offset(&self) -> (r: i64)
        ensures
            r == effective_offset(self.raw_page(), self.raw_page_size()),
            r >= 0,
    {
        let pages_before: u64 = self.page() - 1;
        let size: u64 = self.page_size();
        let limit: u64 = 9223372036854775807u64;
        if pages_before > limit / size {
            assert(pages_before * size > i64::MAX) by (nonlinear_arith)
                requires
                    pages_before > limit / size,
                    limit == i64::MAX,
                    size >= 1,
            ;
            9223372036854775807i64
        } else {
            assert(pages_before * size <= i64::MAX) by (nonlinear_arith)
                requires
                    pages_before <= limit / size,
                    limit == i64::MAX,
                    size >= 1,
            ;
            (pages_before * size) as i64
        }
    }
}

/// One page of results with the totals a client pages by.
#[derive(Debug)]
pub struct PaginatedResponse<T> {
    pub items: Vec<T>,
    pub total_items: i64,
    pub page: u64,
    pub page_size: u64,
    pub total_pages: i64,
}

/// The number of pages that `total_items` rows fill at `page_size` rows a
/// page, rounded up; 0 for a page size of 0 and for a negative total.
pub open spec fn page_count(total_items: i64, page_size: u64) -> int {
    if page_size == 0 || total_items <= 0 {
        0
    } else {
        (total_items + page_size - 1) / (page_size as int)
    }
}

impl<T> PaginatedResponse<T> {
    /// A page of results; the number of pages is computed from the totals.
    pub fn new(items: Vec<T>, total_items: i64, page: u64, page_size: u64) -> (r: Self)
        ensures
            r.items == items,
            r.total_items == total_items,
            r.page == page,
            r.page_size == page_size,
            r.total_pages == page_count(total_items, page_size),
    {
        let total_pages: i64 = if page_size == 0 || total_items <= 0 {
            0
        } else {
            let total: u64 = total_items as u64;
            let full: u64 = total / page_size;
            let rest: u64 = total % page_size;
            assert(full <= total) by (nonlinear_arith)
                requires
                    full == total / page_size,
                    page_size >= 1,
            ;
            assert((total + page_size - 1) / (page_size as int) == if rest == 0 {
                full as int
            } else {
                full + 1
            }) by (nonlinear_arith)
                requires
                    full == total / page_size,
                    rest == total % page_size,
                    page_size >= 1,
            ;
            if rest == 0 {
                full as i64
            } else {
                assert(full < total) by (nonlinear_arith)
                    requires
                        full == total / page_size,
                        rest == total % page_size,
                        rest != 0,
                        page_size >= 1,
                ;
                (full + 1) as i64
            }
        };
        PaginatedResponse { items, total_items, page, page_size, total_pages }
    }
}

/// Body of a request that creates a category.
#[derive(Clone, Debug)]
pub struct CreateCategoryPayload {
    pub name: Option<String>,
}

/// Body of a request that renames a category.
#[derive(Clone, Debug)]
pub struct UpdateCategoryPayload {
    pub name: Option<String>,
}

} // verus!
