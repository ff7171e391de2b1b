//! Pages of a listing.

use vstd::prelude::*;

verus! {

/// The page shown where a request names none.
pub const DEFAULT_PAGE: i64 = 1;

/// The number of rows on a page where a request names none.
pub const DEFAULT_PER_PAGE: i64 = 10;

/// A window on a listing: the page, the rows on a page, and the number of
/// rows that come before the page.
#[derive(Debug, Clone, Copy, PartialEq, Eq, Structural)]
pub struct Page {
    pub page: i64,
    pub per_page: i64,
    pub offset: i64,
}

/// The page that a request asks for: pages count from one.
pub open spec fn requested_page(page: Option<i64>) -> i64 {
    match page {
        Some(p) => p,
        None => DEFAULT_PAGE,
    }
}

/// The rows on a page that a request asks for.
pub open spec fn requested_per_page(per_page: Option<i64>) -> i64 {
    match per_page {
        Some(n) => n,
        None => DEFAULT_PER_PAGE,
    }
}

/// The number of rows before the requested page.
pub open spec fn requested_offset(page: Option<i64>, per_page: Option<i64>) -> int {
    (requested_page(page) - 1) * requested_per_page(per_page)
}

impl Page {
    /// The window that a request asks for, unless the number of rows before
    /// it does not fit a 64-bit integer.
    pub fn of(page: Option<i64>, per_page: Option<i64>) -> (r: Option<Page>)
        ensures
            match r {
                Some(window) => {
                    &&& window.page == requested_page(page)
                    &&& window.per_page == requested_per_page(per_page)
                    &&& window.offset == requested_offset(page, per_page)
                },
                None => requested_offset(page, per_page) < i64::MIN || requested_offset(
                    page,
                    per_page,
                ) > i64::MAX,
            },
    {
        let p: i64 = match page {
            Some(p) => p,
            None => DEFAULT_PAGE,
        };
        let n: i64 = match per_page {
            Some(n) => n,
            None => DEFAULT_PER_PAGE,
        };
        let before: i64 = match p.checked_sub(1) {
            Some(before) => before,
            None => {
                // The page is the smallest integer, so the product fits only
                // where a page holds no rows.
                if n == 0 {
                    return Some(Page { page: p, per_page: n, offset: 0 });
                }
                assert((p - 1) * n < i64::MIN || (p - 1) * n > i64::MAX) by (nonlinear_arith)
                    requires
                        p == i64::MIN,
                        n != 0,
                        i64::MIN <= n <= i64::MAX,
                ;
                return None;
            },
        };
        match before.checked_mul(n) {
            Some(offset) => Some(Page { page: p, per_page: n, offset }),
            None => None,
        }
    }
}

} // verus!
