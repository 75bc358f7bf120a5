//! Pagination of list requests: `?page=&limit=` turned into the `LIMIT` and
//! `OFFSET` of a query.
//!
//! The offset is computed in `usize` as the service computes it in release
//! builds: with wrap-around on overflow, then read as `i64` (so page 0 of
//! the strict lists gives a negative offset, which the database refuses).

use vstd::prelude::*;
use vstd::arithmetic::div_mod::{lemma_mod_multiples_vanish, lemma_small_mod};

verus! {

/// `LIMIT` and `OFFSET` of a list query.
#[derive(Clone, Copy, Debug, PartialEq, Eq, Structural)]
pub struct Window {
    pub limit: i64,
    pub offset: i64,
}

pub open spec fn page_or_first(page: Option<usize>) -> int {
    match page {
        Some(p) => p as int,
        None => 1,
    }
}

pub open spec fn limit_or(limit: Option<usize>, default: usize) -> int {
    match limit {
        Some(l) => l as int,
        None => default as int,
    }
}

/// The rows skipped before page `page` (counted from 1) of `limit` rows.
pub open spec fn skipped(page: int, limit: int) -> int {
    (page - 1) * limit
}

/// The number of values of `usize`.
pub open spec fn usize_range() -> int {
    usize::MAX as int + 1
}

/// `skipped` computed in `usize` with wrap-around.
pub open spec fn wrapped(page: int, limit: int) -> usize {
    (skipped(page, limit) % usize_range()) as usize
}

/// The page before the first one counts as the first one.
pub open spec fn saturating_page(page: Option<usize>) -> int {
    if page_or_first(page) >= 1 {
        page_or_first(page)
    } else {
        1
    }
}

proof fn lemma_wrapped(p: usize, l: usize)
    ensures
        p.wrapping_sub(1).wrapping_mul(l) == wrapped(p as int, l as int),
        p >= 1 && (p - 1) * l <= usize::MAX ==> wrapped(p as int, l as int) == (p - 1) * l,
{
    let m = usize_range();
    let q: int = if p == 0 {
        m - 1
    } else {
        p - 1
    };
    assert(p.wrapping_sub(1) == q);
    if p == 0 {
        assert((m - 1) * l == (-1) * l + m * l) by (nonlinear_arith);
        lemma_mod_multiples_vanish(l as int, (-1) * l, m);
    }
    if p >= 1 && (p - 1) * l <= usize::MAX {
        assert(0 <= (p - 1) * l) by (nonlinear_arith)
            requires
                p >= 1,
        ;
        lemma_small_mod(((p - 1) * l) as nat, m as nat);
    }
}

/// `page` and `limit` default to 1 and `default`; the offset is
/// `(page - 1) * limit`; both are then read as `i64` (wrapping, as `as`
/// does).
pub fn strict_window(page: Option<usize>, limit: Option<usize>, default: usize) -> (r: Window)
    ensures
        r.limit == limit_or(limit, default) as i64,
        r.offset == wrapped(page_or_first(page), limit_or(limit, default)) as i64,
        page_or_first(page) >= 1 && skipped(page_or_first(page), limit_or(limit, default)) <= usize::MAX
            ==> r.offset == skipped(page_or_first(page), limit_or(limit, default)) as i64,
{
    let l: usize = match limit {
        Some(l) => l,
        None => default,
    };
    let p: usize = match page {
        Some(p) => p,
        None => 1,
    };
    let off: usize = p.wrapping_sub(1).wrapping_mul(l);
    proof {
        lemma_wrapped(p, l);
    }
    Window { limit: l as i64, offset: off as i64 }
}

/// As `strict_window`, but page 0 is read as page 1.
pub fn saturating_window(page: Option<usize>, limit: Option<usize>, default: usize) -> (r: Window)
    ensures
        r.limit == limit_or(limit, default) as i64,
        r.offset == wrapped(saturating_page(page), limit_or(limit, default)) as i64,
        skipped(saturating_page(page), limit_or(limit, default)) <= usize::MAX ==> r.offset == skipped(
            saturating_page(page),
            limit_or(limit, default),
        ) as i64,
{
    let l: usize = match limit {
        Some(l) => l,
        None => default,
    };
    let p: usize = match page {
        Some(p) => p,
        None => 1,
    };
    let s: usize = if p == 0 {
        1
    } else {
        p
    };
    let off: usize = p.saturating_sub(1).wrapping_mul(l);
    proof {
        lemma_wrapped(s, l);
        assert(p.saturating_sub(1) == s.wrapping_sub(1));
    }
    Window { limit: l as i64, offset: off as i64 }
}

/// Consecutive pages of the same size are adjacent: page `p + 1` starts
/// where page `p` ends.
pub proof fn lemma_pages_adjacent(p: int, limit: int)
    ensures
        skipped(p + 1, limit) == skipped(p, limit) + limit,
{
    assert((p + 1 - 1) * limit == (p - 1) * limit + limit) by (nonlinear_arith);
}

} // verus!
