//! Reading and writing the bytes of the guest's shared linear memory.
//!
//! The memory is shared with guest threads, so it is seen as a slice of
//! atomic bytes: stores use release ordering and loads acquire ordering. What a
//! load returns is whatever the guest last stored there, which nothing here
//! knows; contracts speak of where bytes are read, not of their values.

use vstd::prelude::*;

use std::sync::atomic::{AtomicU8, Ordering};

use crate::address::{MemoryLayout, WasmAddress};
use crate::error::WaliError;

verus! {

/// Writes `bytes` into linear memory from `wasm_addr` on, one release store
/// per byte in order, and returns the number of bytes written.
pub fn write_into_memory(memory: &[AtomicU8], wasm_addr: &WasmAddress, bytes: &[u8]) -> (r: usize)
    requires
        wasm_addr@ + bytes@.len() <= memory@.len(),
    ensures
        r == bytes@.len(),
{
    let start = wasm_addr.offset();
    let memory_len = memory.len();
    let mut idx: usize = 0;
    while idx < bytes.len()
        invariant
            start == wasm_addr@,
            memory_len == memory@.len(),
            start + bytes@.len() <= memory@.len(),
            idx <= bytes@.len(),
        decreases bytes@.len() - idx,
    {
        memory[start + idx].store(bytes[idx], Ordering::Release);
        idx += 1;
    }
    bytes.len()
}

/// The 32-bit integer whose little-endian bytes are `b0` to `b3`.
pub open spec fn le_i32(b0: u8, b1: u8, b2: u8, b3: u8) -> i32 {
    (b0 as int + 256 * (b1 as int) + 65536 * (b2 as int) + 16777216 * (b3 as int)) as i32
}

/// The 32-bit integer whose little-endian bytes are `b0` to `b3`.
pub fn i32_from_le_bytes(b0: u8, b1: u8, b2: u8, b3: u8) -> (r: i32)
    ensures
        r == le_i32(b0, b1, b2, b3),
{
    let word: u32 = b0 as u32 + 256 * (b1 as u32) + 65536 * (b2 as u32) + 16777216 * (b3 as u32);
    word as i32
}

/// The little-endian 32-bit word at byte `offset` of linear memory: four
/// acquire loads, assembled by `i32_from_le_bytes`.
pub fn read_guest_i32(memory: &[AtomicU8], offset: usize) -> i32
    requires
        offset + 4 <= memory@.len(),
{
    let b0 = memory[offset].load(Ordering::Acquire);
    let b1 = memory[offset + 1].load(Ordering::Acquire);
    let b2 = memory[offset + 2].load(Ordering::Acquire);
    let b3 = memory[offset + 3].load(Ordering::Acquire);
    i32_from_le_bytes(b0, b1, b2, b3)
}

/// An `iovec` as the guest lays it out: two 32-bit words, a guest pointer and
/// a length.
#[derive(Clone, Copy, Debug, PartialEq, Eq, Structural)]
pub struct GuestIoVec {
    pub base: i32,
    pub len: i32,
}

/// Size in bytes of a guest `iovec`.
pub const GUEST_IOVEC_SIZE: usize = 8;

/// Why an array of `count` guest `iovec`s at guest offset `offset` cannot be
/// read, if it cannot.
pub open spec fn iovec_array_error(memory: MemoryLayout, offset: int, count: int) -> Option<WaliError> {
    if !(0 <= offset < memory.size) {
        Some(WaliError::OutOfRange)
    } else if count < 0 {
        Some(WaliError::NegativeLength)
    } else if offset + count * 8 > memory.size {
        Some(WaliError::OutOfRange)
    } else {
        None
    }
}

/// Reads the array of `count` guest `iovec`s at guest offset `offset`.
pub fn read_guest_iovecs(
    memory: &[AtomicU8],
    layout: &MemoryLayout,
    offset: i32,
    count: i32,
) -> (r: Result<Vec<GuestIoVec>, WaliError>)
    requires
        layout.wf(),
        memory@.len() == layout.size,
    ensures
        r is Err <==> iovec_array_error(*layout, offset as int, count as int) is Some,
        r matches Err(e) ==> iovec_array_error(*layout, offset as int, count as int) == Some(e),
        r matches Ok(v) ==> v@.len() == count,
{
    let start = WasmAddress::try_new(offset as i64, layout)?;
    if count < 0 {
        return Err(WaliError::NegativeLength);
    }
    let start = start.offset();
    let n = count as usize;
    if n > (layout.size - start) / GUEST_IOVEC_SIZE {
        proof {
            assert((n as int) * 8 > layout.size - start) by (nonlinear_arith)
                requires
                    n > (layout.size - start) / 8,
                    layout.size - start >= 0,
            ;
        }
        return Err(WaliError::OutOfRange);
    }
    proof {
        assert((n as int) * 8 <= layout.size - start) by (nonlinear_arith)
            requires
                n <= (layout.size - start) / 8,
                layout.size - start >= 0,
        ;
    }
    let memory_len = memory.len();
    let mut iovecs: Vec<GuestIoVec> = Vec::new();
    let mut i: usize = 0;
    while i < n
        invariant
            memory_len == memory@.len(),
            i <= n,
            iovecs@.len() == i,
            start + (n as int) * 8 <= memory@.len(),
        decreases n - i,
    {
        proof {
            assert(start + (i as int) * 8 + 8 <= start + (n as int) * 8) by (nonlinear_arith)
                requires
                    i < n,
            ;
            assert((i * GUEST_IOVEC_SIZE) as int == (i as int) * 8);
        }
        let at = start + i * GUEST_IOVEC_SIZE;
        let base = read_guest_i32(memory, at);
        let len = read_guest_i32(memory, at + 4);
        iovecs.push(GuestIoVec { base, len });
        i += 1;
    }
    Ok(iovecs)
}

/// The entries of a null-terminated pointer array whose words, from its
/// start, are `words`: those before the first zero word. Fails with
/// `Unterminated` where no word is zero.
pub fn pointer_array_entries(words: &Vec<i32>) -> (r: Result<Vec<i32>, WaliError>)
    ensures
        r is Ok <==> words@.contains(0i32),
        r matches Err(e) ==> e == WaliError::Unterminated,
        r matches Ok(v) ==> {
            &&& v@.len() < words@.len()
            &&& words@[v@.len() as int] == 0
            &&& v@ == words@.take(v@.len() as int)
            &&& forall|j: int| 0 <= j < v@.len() ==> v@[j] != 0
        },
{
    let mut entries: Vec<i32> = Vec::new();
    let mut i: usize = 0;
    while i < words.len()
        invariant
            i <= words@.len(),
            entries@ == words@.take(i as int),
            forall|j: int| 0 <= j < i ==> words@[j] != 0,
        decreases words@.len() - i,
    {
        if words[i] == 0 {
            return Ok(entries);
        }
        entries.push(words[i]);
        i += 1;
        proof {
            assert(entries@ =~= words@.take(i as int));
        }
    }
    proof {
        assert(!words@.contains(0i32));
    }
    Err(WaliError::Unterminated)
}

/// Reads the null-terminated array of 32-bit guest pointers at guest offset
/// `array`: its words up to and including the first zero word, or to the end
/// of memory, then its entries by `pointer_array_entries`. Fails with
/// `OutOfRange` where `array` is not in memory and with `Unterminated` where
/// memory ends before a zero word.
pub fn read_guest_pointer_array(memory: &[AtomicU8], layout: &MemoryLayout, array: i32) -> (r: Result<Vec<i32>, WaliError>)
    requires
        layout.wf(),
        memory@.len() == layout.size,
    ensures
        r matches Err(e) ==> (e == WaliError::OutOfRange <==> !(0 <= array < layout.size)),
        r matches Err(e) ==> e == WaliError::OutOfRange || e == WaliError::Unterminated,
        !(0 <= array < layout.size) ==> r == Err::<Vec<i32>, WaliError>(WaliError::OutOfRange),
        0 <= array < layout.size && array + 4 > layout.size ==> r == Err::<Vec<i32>, WaliError>(
            WaliError::Unterminated,
        ),
        r matches Ok(v) ==> {
            &&& 0 <= array
            &&& array + 4 * (v@.len() + 1) <= layout.size
            &&& forall|i: int| 0 <= i < v@.len() ==> v@[i] != 0
        },
{
    let start = WasmAddress::try_new(array as i64, layout)?;
    let start = start.offset();
    let mut words: Vec<i32> = Vec::new();
    let mut at = start;
    loop
        invariant_except_break
            at == start + 4 * words@.len(),
            at <= layout.size,
        invariant
            start == array,
            start < layout.size,
            memory@.len() == layout.size,
        ensures
            start + 4 * words@.len() <= layout.size,
            start + 4 > layout.size ==> words@.len() == 0,
        decreases layout.size - at,
    {
        if layout.size < 4 || at > layout.size - 4 {
            break;
        }
        let word = read_guest_i32(memory, at);
        words.push(word);
        if word == 0 {
            break;
        }
        at = at + 4;
    }
    let r = pointer_array_entries(&words);
    proof {
        if words@.len() == 0 {
            assert(!words@.contains(0i32));
        }
    }
    r
}

} // verus!
