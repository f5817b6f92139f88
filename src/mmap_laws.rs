//! What a sequence of `mmap` and `munmap` calls does to the `mmap` region and
//! to the size of linear memory.
//!
//! One successful guest `mmap` is `plan_mmap`, growing linear memory by the
//! planned number of WebAssembly pages, the host `mmap` at the planned address
//! (which `MAP_FIXED` makes the address of the mapping), and
//! `update_n_mmap_pages`. A guest `munmap` is `plan_munmap` and the host
//! `munmap`, which leaves the size of linear memory alone.

use vstd::prelude::*;

use vstd::arithmetic::div_mod::{lemma_fundamental_div_mod, lemma_mod_multiples_vanish};

use crate::mmap::MmapView;
use crate::pages::{align_up, ceil_div, lemma_ceil_div_bounds};

verus! {

/// The `mmap` state and linear memory size after one successful guest `mmap` of
/// `length` bytes, from state `d` and a memory of `memory_size` bytes.
pub open spec fn after_mmap(d: MmapView, memory_size: nat, length: nat) -> (MmapView, nat) {
    let d2 = d.with_base(memory_size);
    (
        d2.with_pages((d2.n_mmap_pages + ceil_div(length as int, d2.page_size_native as int)) as nat),
        (memory_size + d2.additional_wasm_pages(memory_size as int, length as int)
            * d2.page_size_wasm) as nat,
    )
}

/// The host address where a guest `mmap` from state `d` places its mapping,
/// for a memory of `memory_size` bytes at host address `base_address`.
pub open spec fn mmap_address(d: MmapView, memory_size: nat, base_address: int) -> int {
    d.with_base(memory_size).memory_end(base_address)
}

/// The `mmap` state and linear memory size after successful guest `mmap`s of
/// `lengths`, in order.
pub open spec fn after_mmaps(d: MmapView, memory_size: nat, lengths: Seq<nat>) -> (MmapView, nat)
    decreases lengths.len(),
{
    if lengths.len() == 0 {
        (d, memory_size)
    } else {
        let next = after_mmap(d, memory_size, lengths[0]);
        after_mmaps(next.0, next.1, lengths.drop_first())
    }
}

/// The `mmap` state and linear memory size after nested pairs: `mmap` of
/// `lengths[0]`, then the pairs of the rest, then `munmap` of the first
/// mapping (its address and `lengths[0]` bytes).
pub open spec fn mmaps_then_unmaps(d: MmapView, memory_size: nat, base_address: int, lengths: Seq<nat>) -> (MmapView, nat)
    decreases lengths.len(),
{
    if lengths.len() == 0 {
        (d, memory_size)
    } else {
        let address = mmap_address(d, memory_size, base_address);
        let next = after_mmap(d, memory_size, lengths[0]);
        let inner = mmaps_then_unmaps(next.0, next.1, base_address, lengths.drop_first());
        (inner.0.after_munmap(base_address, address, lengths[0] as int), inner.1)
    }
}

/// `c` pages of `d` bytes are the fewest that hold `x` bytes.
proof fn lemma_ceil_div_unique(x: int, d: int, c: int)
    requires
        x >= 0,
        d > 0,
        c >= 0,
        x <= c * d,
        c == 0 || (c - 1) * d < x,
    ensures
        ceil_div(x, d) == c,
{
    lemma_ceil_div_bounds(x, d);
    let k = ceil_div(x, d);
    assert(k * d - d < x);
    assert((k - 1) * d == k * d - d) by (nonlinear_arith);
    if c == 0 {
        assert(k < 1) by (nonlinear_arith)
            requires
                k * d < x + d,
                x <= 0,
                d > 0,
        ;
    } else {
        assert(c <= k) by (nonlinear_arith)
            requires
                (c - 1) * d < x,
                x <= k * d,
                d > 0,
        ;
        assert(k <= c) by (nonlinear_arith)
            requires
                (k - 1) * d < x,
                x <= c * d,
                d > 0,
        ;
    }
}

/// One `mmap` of at most a native page keeps linear memory at the base size
/// plus the WebAssembly pages that the mapped pages need.
proof fn lemma_small_mmap_step(d: MmapView, memory_size: nat, length: nat, base: nat)
    requires
        d.wf(),
        d.page_size_wasm % d.page_size_native == 0,
        d.base_size == Some(base),
        memory_size == base + ceil_div(d.mapped_size() as int, d.page_size_wasm as int)
            * d.page_size_wasm,
        0 < length <= d.page_size_native,
    ensures
        after_mmap(d, memory_size, length).0 == d.with_pages(d.n_mmap_pages + 1),
        after_mmap(d, memory_size, length).1 == base + ceil_div(
            ((d.n_mmap_pages + 1) * d.page_size_native) as int,
            d.page_size_wasm as int,
        ) * d.page_size_wasm,
{
    let n = d.n_mmap_pages as int;
    let pn = d.page_size_native as int;
    let pw = d.page_size_wasm as int;
    let c = ceil_div(n * pn, pw);
    assert(n * pn >= 0) by (nonlinear_arith)
        requires
            n >= 0,
            pn > 0,
    ;
    lemma_ceil_div_bounds(n * pn, pw);
    lemma_ceil_div_bounds(length as int, pn);
    lemma_ceil_div_unique(length as int, pn, 1);
    lemma_fundamental_div_mod(pw, pn);
    let q = pw / pn;
    assert(pw == q * pn) by (nonlinear_arith)
        requires
            pw == pn * q + pw % pn,
            pw % pn == 0,
    ;
    assert(q >= 1) by (nonlinear_arith)
        requires
            pw == q * pn,
            pw > 0,
            pn > 0,
    ;
    let available = d.available(memory_size as int);
    assert(available == c * pw - n * pn);
    let j = c * q - n;
    assert(available == j * pn) by (nonlinear_arith)
        requires
            available == c * pw - n * pn,
            pw == q * pn,
            j == c * q - n,
    ;
    assert(j >= 0) by (nonlinear_arith)
        requires
            available == j * pn,
            available >= 0,
            pn > 0,
    ;
    assert(pn <= pw) by (nonlinear_arith)
        requires
            pw == q * pn,
            q >= 1,
            pn > 0,
    ;
    let n1 = n + 1;
    assert(n1 * pn == n * pn + pn) by (nonlinear_arith)
        requires
            n1 == n + 1,
    ;
    if j >= 1 {
        assert(available >= pn) by (nonlinear_arith)
            requires
                available == j * pn,
                j >= 1,
                pn > 0,
        ;
        assert(d.additional_wasm_pages(memory_size as int, length as int) == 0);
        if c > 0 {
            assert((c - 1) * pw < n * pn);
        } else {
            assert(n * pn <= 0);
            assert(available <= 0);
        }
        lemma_ceil_div_unique(n1 * pn, pw, c);
    } else {
        assert(j == 0);
        assert(available == 0) by (nonlinear_arith)
            requires
                available == j * pn,
                j == 0,
        ;
        lemma_ceil_div_bounds(length as int, pw);
        assert(ceil_div(length as int, pw) == 1) by {
            lemma_ceil_div_unique(length as int, pw, 1);
        }
        assert(d.additional_wasm_pages(memory_size as int, length as int) == 1);
        assert((c + 1) * pw == c * pw + pw) by (nonlinear_arith);
        lemma_ceil_div_unique(n1 * pn, pw, c + 1);
    }
}

proof fn lemma_small_mmaps_from(d: MmapView, memory_size: nat, lengths: Seq<nat>, base: nat)
    requires
        d.wf(),
        d.page_size_wasm % d.page_size_native == 0,
        d.base_size == Some(base),
        memory_size == base + ceil_div(d.mapped_size() as int, d.page_size_wasm as int)
            * d.page_size_wasm,
        forall|i: int| 0 <= i < lengths.len() ==> 0 < #[trigger] lengths[i] <= d.page_size_native,
    ensures
        after_mmaps(d, memory_size, lengths).0 == d.with_pages(d.n_mmap_pages + lengths.len()),
        after_mmaps(d, memory_size, lengths).1 == base + ceil_div(
            ((d.n_mmap_pages + lengths.len()) * d.page_size_native) as int,
            d.page_size_wasm as int,
        ) * d.page_size_wasm,
    decreases lengths.len(),
{
    if lengths.len() > 0 {
        lemma_small_mmap_step(d, memory_size, lengths[0], base);
        let next = after_mmap(d, memory_size, lengths[0]);
        let rest = lengths.drop_first();
        assert forall|i: int| 0 <= i < rest.len() implies 0 < #[trigger] rest[i]
            <= next.0.page_size_native by {
            assert(rest[i] == lengths[i + 1]);
        }
        lemma_small_mmaps_from(next.0, next.1, rest, base);
    }
}

/// After `k` successful guest `mmap`s of at most one native page each, from a
/// state where nothing was mapped yet, linear memory holds exactly its size at
/// the first call plus the WebAssembly pages that `k` native pages need. This
/// holds where native pages tile a WebAssembly page, as on every Linux host
/// with pages of at most 64 KiB.
pub proof fn lemma_small_mmaps_grow_by_whole_wasm_pages(d: MmapView, memory_size: nat, lengths: Seq<nat>)
    requires
        d.wf(),
        d.page_size_wasm % d.page_size_native == 0,
        d.base_size is None,
        d.n_mmap_pages == 0,
        forall|i: int| 0 <= i < lengths.len() ==> 0 < #[trigger] lengths[i] <= d.page_size_native,
    ensures
        after_mmaps(d, memory_size, lengths).1 == memory_size + ceil_div(
            (lengths.len() * d.page_size_native) as int,
            d.page_size_wasm as int,
        ) * d.page_size_wasm,
{
    if lengths.len() > 0 {
        let d2 = d.with_base(memory_size);
        lemma_ceil_div_bounds(0, d.page_size_wasm as int);
        assert(d2.mapped_size() == 0) by (nonlinear_arith)
            requires
                d2.n_mmap_pages == 0,
                d2.mapped_size() == d2.n_mmap_pages * d2.page_size_native,
        ;
        lemma_small_mmap_step(d2, memory_size, lengths[0], memory_size);
        assert(after_mmap(d2, memory_size, lengths[0]) == after_mmap(d, memory_size, lengths[0]));
        let next = after_mmap(d, memory_size, lengths[0]);
        let rest = lengths.drop_first();
        assert forall|i: int| 0 <= i < rest.len() implies 0 < #[trigger] rest[i]
            <= next.0.page_size_native by {
            assert(rest[i] == lengths[i + 1]);
        }
        lemma_small_mmaps_from(next.0, next.1, rest, memory_size);
    }
}

/// Successful `mmap`s never shrink linear memory.
proof fn lemma_mmaps_never_shrink(d: MmapView, memory_size: nat, lengths: Seq<nat>)
    requires
        d.wf(),
    ensures
        memory_size <= after_mmaps(d, memory_size, lengths).1,
    decreases lengths.len(),
{
    if lengths.len() > 0 {
        let d2 = d.with_base(memory_size);
        let available = d2.available(memory_size as int);
        if available < lengths[0] {
            lemma_ceil_div_bounds(lengths[0] - available, d2.page_size_wasm as int);
            assert(d2.additional_wasm_pages(memory_size as int, lengths[0] as int) * d2.page_size_wasm >= 0)
                by (nonlinear_arith)
                requires
                    d2.additional_wasm_pages(memory_size as int, lengths[0] as int) >= 0,
            ;
        }
        let next = after_mmap(d, memory_size, lengths[0]);
        lemma_mmaps_never_shrink(next.0, next.1, lengths.drop_first());
    }
}

/// The memory size after any prefix of a sequence of successful `mmap`s is at
/// most the size after all of them.
proof fn lemma_mmaps_prefix_not_larger(d: MmapView, memory_size: nat, lengths: Seq<nat>, i: int)
    requires
        d.wf(),
        0 <= i <= lengths.len(),
    ensures
        after_mmaps(d, memory_size, lengths.take(i)).1 <= after_mmaps(d, memory_size, lengths).1,
    decreases lengths.len(),
{
    if i == 0 {
        assert(lengths.take(0).len() == 0);
        lemma_mmaps_never_shrink(d, memory_size, lengths);
    } else {
        let next = after_mmap(d, memory_size, lengths[0]);
        assert(lengths.take(i)[0] == lengths[0]);
        assert(lengths.take(i).drop_first() =~= lengths.drop_first().take(i - 1));
        lemma_mmaps_prefix_not_larger(next.0, next.1, lengths.drop_first(), i - 1);
    }
}

/// Rounding up to a page boundary commutes with adding whole pages.
proof fn lemma_align_up_add_pages(y: int, k: int, page: int)
    requires
        page > 0,
    ensures
        align_up(y + k * page, page) == align_up(y, page) + k * page,
{
    lemma_mod_multiples_vanish(k, y, page);
    assert(page * k == k * page) by (nonlinear_arith);
}

/// A guest `mmap` places its mapping inside linear memory as grown for it:
/// where the memory's host address plus its base size falls on a native page
/// boundary (as it does for page-aligned memory of whole WebAssembly pages)
/// and the mapped region lies in memory, the mapping's guest offset plus its
/// length is at most the grown memory size.
pub proof fn lemma_mapping_fits_grown_memory(d: MmapView, memory_size: nat, base_address: int, length: nat)
    requires
        d.wf(),
        base_address >= 0,
        (base_address + d.with_base(memory_size).base_size.unwrap()) % (d.page_size_native as int) == 0,
        d.with_base(memory_size).used_size() <= memory_size,
    ensures
        mmap_address(d, memory_size, base_address) - base_address == d.with_base(memory_size).used_size(),
        mmap_address(d, memory_size, base_address) - base_address + length <= after_mmap(d, memory_size, length).1,
{
    let d2 = d.with_base(memory_size);
    let pn = d.page_size_native as int;
    let start = base_address + d2.base_size.unwrap();
    lemma_align_up_add_pages(start, d2.n_mmap_pages as int, pn);
    assert(align_up(start, pn) == start);
    assert(d2.used_size() == d2.base_size.unwrap() + d2.n_mmap_pages * pn);
    let available = d2.available(memory_size as int);
    if available < length {
        lemma_ceil_div_bounds(length - available, d2.page_size_wasm as int);
    }
}

/// Nested `mmap` and `munmap` pairs of whole native pages, each `munmap` given
/// the address that its `mmap` returned, unwind cleanly from the end: the
/// `mmap` state is as before the first pair (with its base size recorded), so a
/// region that was empty is empty again, and linear memory keeps the size that
/// the `mmap`s grew it to, the largest it reached.
pub proof fn lemma_nested_mmaps_unwind(d: MmapView, memory_size: nat, base_address: int, lengths: Seq<nat>)
    requires
        d.wf(),
        base_address >= 0,
        forall|i: int| 0 <= i < lengths.len() ==> #[trigger] lengths[i] % d.page_size_native == 0,
    ensures
        mmaps_then_unmaps(d, memory_size, base_address, lengths).0 == if lengths.len() == 0 {
            d
        } else {
            d.with_base(memory_size)
        },
        mmaps_then_unmaps(d, memory_size, base_address, lengths).1 == after_mmaps(
            d,
            memory_size,
            lengths,
        ).1,
        forall|i: int|
            0 <= i <= lengths.len() ==> after_mmaps(d, memory_size, #[trigger] lengths.take(i)).1
                <= mmaps_then_unmaps(d, memory_size, base_address, lengths).1,
    decreases lengths.len(),
{
    assert forall|i: int| 0 <= i <= lengths.len() implies after_mmaps(d, memory_size, #[trigger] lengths.take(i)).1
        <= after_mmaps(d, memory_size, lengths).1 by {
        lemma_mmaps_prefix_not_larger(d, memory_size, lengths, i);
    }
    if lengths.len() > 0 {
        let d2 = d.with_base(memory_size);
        let pn = d.page_size_native as int;
        let n = d.n_mmap_pages as int;
        let start = base_address + d2.base_size.unwrap();
        let l0 = lengths[0] as int;
        let next = after_mmap(d, memory_size, lengths[0]);
        let rest = lengths.drop_first();
        assert forall|i: int| 0 <= i < rest.len() implies #[trigger] rest[i] % next.0.page_size_native
            == 0 by {
            assert(rest[i] == lengths[i + 1]);
        }
        assert(next.0.with_base(next.1) == next.0);
        lemma_nested_mmaps_unwind(next.0, next.1, base_address, rest);
        let inner = mmaps_then_unmaps(next.0, next.1, base_address, rest);
        assert(inner.0 == next.0);
        // The mapping starts at the end of the region, rounded up to a page,
        // and ends where the grown region ends, rounded up likewise.
        let y = start + n * pn;
        let address = mmap_address(d, memory_size, base_address);
        assert(address == align_up(y, pn));
        lemma_ceil_div_bounds(l0, pn);
        let k = ceil_div(l0, pn);
        assert(k * pn == l0);
        assert((n + k) * pn == n * pn + k * pn) by (nonlinear_arith);
        lemma_align_up_add_pages(y, k, pn);
        assert(next.0.memory_end(base_address) == address + l0);
        assert(inner.0.after_munmap(base_address, address, l0) == d2);
    }
}

} // verus!
