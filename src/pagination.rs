//! Turning optional `page` / `limit` query values into a scan window.

use vstd::prelude::*;

verus! {

/// Number of notes returned per page when the request names no `limit`.
pub const DEFAULT_LIMIT: i64 = 10;

/// Optional paging values as they arrive with a list request.
pub struct FilterOptions {
    pub page: Option<i64>,
    pub limit: Option<i64>,
}

/// The window of a table scan: at most `limit` rows after skipping `offset`.
///
/// Nothing is clamped here: a zero or negative page gives a negative offset,
/// which the store then refuses.
#[derive(Clone, Copy, Debug, PartialEq, Eq, Structural)]
pub struct Pagination {
    pub limit: i64,
    pub offset: i128,
}

/// The limit a request asks for, `DEFAULT_LIMIT` when absent.
pub open spec fn requested_limit(opts: FilterOptions) -> int {
    match opts.limit {
        Some(l) => l as int,
        None => DEFAULT_LIMIT as int,
    }
}

/// The 1-based page a request asks for, the first when absent.
pub open spec fn requested_page(opts: FilterOptions) -> int {
    match opts.page {
        Some(p) => p as int,
        None => 1,
    }
}

/// Rows skipped before the requested page: `(page - 1) * limit`.
pub open spec fn requested_offset(opts: FilterOptions) -> int {
    (requested_page(opts) - 1) * requested_limit(opts)
}

/// The `LIMIT` / `OFFSET` pair that a scan binds for a window, `None` when
/// either is negative. An offset past `u64::MAX` is past every table and is
/// bound as `u64::MAX`.
pub open spec fn scan_bounds_of(limit: int, offset: int) -> Option<(u64, u64)> {
    if limit < 0 || offset < 0 {
        None
    } else if offset > u64::MAX {
        Some((limit as u64, u64::MAX))
    } else {
        Some((limit as u64, offset as u64))
    }
}

impl Pagination {
    /// The bounds to bind for this window; `None` for a negative one.
    pub fn scan_bounds(&self) -> (r: Option<(u64, u64)>)
        ensures
            r == scan_bounds_of(self.limit as int, self.offset as int),
    {
        if self.limit < 0 || self.offset < 0 {
            None
        } else if self.offset > u64::MAX as i128 {
            Some((self.limit as u64, u64::MAX))
        } else {
            Some((self.limit as u64, self.offset as u64))
        }
    }
}

impl FilterOptions {
    /// Resolves defaults and computes the offset of the requested page.
    pub fn pagination(&self) -> (r: Pagination)
        ensures
            r.limit as int == requested_limit(*self),
            r.offset as int == requested_offset(*self),
    {
        let limit: i64 = match self.limit {
            Some(l) => l,
            None => DEFAULT_LIMIT,
        };
        let page: i64 = match self.page {
            Some(p) => p,
            None => 1,
        };
        let before: i128 = page as i128 - 1;
        assert(before * (limit as i128) <= 0x4000_0000_0000_0001_0000_0000_0000_0000)
            by (nonlinear_arith)
            requires
                -0x8000_0000_0000_0001 <= before <= 0x7fff_ffff_ffff_fffe,
                -0x8000_0000_0000_0000 <= limit <= 0x7fff_ffff_ffff_ffff,
        ;
        assert(before * (limit as i128) >= -0x4000_0000_0000_0001_0000_0000_0000_0000)
            by (nonlinear_arith)
            requires
                -0x8000_0000_0000_0001 <= before <= 0x7fff_ffff_ffff_fffe,
                -0x8000_0000_0000_0000 <= limit <= 0x7fff_ffff_ffff_ffff,
        ;
        Pagination { limit, offset: before * (limit as i128) }
    }
}

} // verus!
