//! Page arithmetic: rounding sizes up to whole pages and addresses up to page
//! boundaries.

use vstd::prelude::*;

use vstd::arithmetic::div_mod::{
    lemma_div_is_ordered_by_denominator, lemma_fundamental_div_mod, lemma_mod_bound,
};

verus! {

/// Size in bytes of a WebAssembly page.
pub const WASM_PAGE_SIZE: usize = 65536;

/// The number of pages of `page` bytes that `size` bytes occupy.
pub open spec fn ceil_div(size: int, page: int) -> int {
    if size % page == 0 {
        size / page
    } else {
        size / page + 1
    }
}

/// `value` rounded up to the next multiple of `page`.
pub open spec fn align_up(value: int, page: int) -> int {
    if value % page == 0 {
        value
    } else {
        value + (page - value % page)
    }
}

/// Whole pages of `page` bytes cover exactly `size` bytes or fewer than one page more.
pub proof fn lemma_ceil_div_bounds(size: int, page: int)
    requires
        size >= 0,
        page > 0,
    ensures
        ceil_div(size, page) >= 0,
        size <= ceil_div(size, page) * page < size + page,
        ceil_div(size, page) <= size || (size == 0 && ceil_div(size, page) == 0) || page == 1,
        size % page == 0 ==> ceil_div(size, page) * page == size,
{
    lemma_fundamental_div_mod(size, page);
    lemma_mod_bound(size, page);
    assert(size / page >= 0) by (nonlinear_arith)
        requires
            size >= 0,
            page > 0,
    ;
    let q = size / page;
    let r = size % page;
    assert(size == page * q + r);
    if r == 0 {
        assert(ceil_div(size, page) == q);
        assert(q * page == size) by (nonlinear_arith)
            requires
                size == page * q + r,
                r == 0,
        ;
    } else {
        assert(ceil_div(size, page) == q + 1);
        assert((q + 1) * page == page * q + page) by (nonlinear_arith);
    }
    assert(ceil_div(size, page) <= size || size == 0 || page == 1) by (nonlinear_arith)
        requires
            size >= 0,
            page > 0,
            size <= ceil_div(size, page) * page < size + page,
            ceil_div(size, page) >= 0,
    ;
}

/// Rounding up reaches a page boundary at most one page further on.
pub proof fn lemma_align_up_bounds(value: int, page: int)
    requires
        value >= 0,
        page > 0,
    ensures
        value <= align_up(value, page) < value + page,
        align_up(value, page) % page == 0,
{
    lemma_mod_bound(value, page);
    lemma_fundamental_div_mod(value, page);
    if value % page != 0 {
        let q = value / page;
        assert(align_up(value, page) == (q + 1) * page) by (nonlinear_arith)
            requires
                value == page * q + value % page,
                align_up(value, page) == value + (page - value % page),
        ;
        vstd::arithmetic::div_mod::lemma_mod_multiples_basic(q + 1, page);
    }
}

/// The number of pages of `page` bytes that `size` bytes occupy.
pub(crate) fn pages_for_size(size: usize, page: usize) -> (r: usize)
    requires
        page > 0,
    ensures
        r == ceil_div(size as int, page as int),
{
    let n_pages = size / page;
    if size % page != 0 {
        proof {
            assert(page != 1);
            lemma_div_is_ordered_by_denominator(size as int, 2, page as int);
        }
        n_pages + 1
    } else {
        n_pages
    }
}

/// `value` rounded up to a multiple of `page_size`, or `None` where that does
/// not fit a `usize`.
pub fn page_aligned(value: usize, page_size: usize) -> (r: Option<usize>)
    requires
        page_size > 0,
    ensures
        r is Some <==> align_up(value as int, page_size as int) <= usize::MAX,
        r matches Some(a) ==> a == align_up(value as int, page_size as int),
{
    let offset = value % page_size;
    if offset == 0 {
        Some(value)
    } else {
        let pad = page_size - offset;
        if value > usize::MAX - pad {
            None
        } else {
            Some(value + pad)
        }
    }
}

} // verus!
