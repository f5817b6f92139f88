//! Guest offsets and host addresses over one linear memory.

use vstd::prelude::*;

use crate::error::WaliError;

verus! {

/// Largest byte size of a 32-bit WebAssembly linear memory: 65536 pages of 64 KiB.
pub const MAX_MEMORY_SIZE: u64 = 4294967296;

/// Where a linear memory lies in host address space: the host address of its
/// first byte and its current size in bytes.
#[derive(Clone, Copy, Debug, PartialEq, Eq, Structural)]
pub struct MemoryLayout {
    pub base: usize,
    pub size: usize,
}

/// A memory of `size` bytes at host address `base` fits the host's address
/// space (and its system call words) and a 32-bit guest's offsets.
pub open spec fn layout_fits(base: int, size: int) -> bool {
    &&& 0 <= base
    &&& 0 <= size
    &&& base + size <= usize::MAX
    &&& base + size <= i64::MAX
    &&& size <= MAX_MEMORY_SIZE
}

/// The host address of the byte at guest offset `offset`.
pub open spec fn host_address_of(memory: MemoryLayout, offset: int) -> int {
    memory.base + offset
}

/// The guest offset of host address `host`, if `host` points into the memory.
pub open spec fn guest_offset_of(memory: MemoryLayout, host: int) -> Option<int> {
    if memory.base <= host < memory.base + memory.size {
        Some(host - memory.base)
    } else {
        None
    }
}

impl MemoryLayout {
    pub open spec fn wf(&self) -> bool {
        layout_fits(self.base as int, self.size as int)
    }

    /// The layout of a memory of `size` bytes at host address `base`, or `None`
    /// where such a memory cannot exist for a 32-bit guest on this host.
    pub fn new(base: usize, size: usize) -> (r: Option<MemoryLayout>)
        ensures
            r is Some <==> layout_fits(base as int, size as int),
            r matches Some(m) ==> m.base == base && m.size == size && m.wf(),
    {
        if size > usize::MAX - base {
            return None;
        }
        let end = base + size;
        if end as u64 > i64::MAX as u64 || size as u64 > MAX_MEMORY_SIZE {
            return None;
        }
        Some(MemoryLayout { base, size })
    }
}

/// An offset into the guest's linear memory.
pub struct WasmAddress {
    offset: u32,
}

impl View for WasmAddress {
    type V = nat;

    closed spec fn view(&self) -> nat {
        self.offset as nat
    }
}

impl WasmAddress {
    /// The guest address `offset`. A guest offset outside the memory is a
    /// violation of the guest ABI; callers that cannot rule it out use `try_new`.
    pub fn new(offset: i32, memory: &MemoryLayout) -> (r: WasmAddress)
        requires
            memory.wf(),
            0 <= offset < memory.size,
        ensures
            r@ == offset,
    {
        WasmAddress { offset: offset as u32 }
    }

    /// The guest address `offset`, or `OutOfRange` where it is negative or not
    /// below the memory size.
    pub fn try_new(offset: i64, memory: &MemoryLayout) -> (r: Result<WasmAddress, WaliError>)
        requires
            memory.wf(),
        ensures
            r is Ok <==> 0 <= offset < memory.size,
            r matches Ok(a) ==> a@ == offset,
            r matches Err(e) ==> e == WaliError::OutOfRange,
    {
        if offset < 0 || offset as u64 >= memory.size as u64 {
            Err(WaliError::OutOfRange)
        } else {
            Ok(WasmAddress { offset: offset as u32 })
        }
    }

    /// The host address of the byte this guest address names.
    pub fn to_host_address(&self, memory: &MemoryLayout) -> (r: HostAddress)
        requires
            memory.wf(),
            self@ < memory.size,
        ensures
            r@ == host_address_of(*memory, self@ as int),
    {
        HostAddress { addr: memory.base + self.offset as usize }
    }

    pub fn offset(&self) -> (r: usize)
        ensures
            r == self@,
    {
        self.offset as usize
    }
}

/// An address in the host's address space.
pub struct HostAddress {
    addr: usize,
}

impl View for HostAddress {
    type V = nat;

    closed spec fn view(&self) -> nat {
        self.addr as nat
    }
}

impl HostAddress {
    pub fn new(addr: usize) -> (r: HostAddress)
        ensures
            r@ == addr,
    {
        HostAddress { addr }
    }

    /// The guest address of this host address, or `OutOfRange` where it does
    /// not point into the memory.
    pub fn to_wasm_address(&self, memory: &MemoryLayout) -> (r: Result<WasmAddress, WaliError>)
        requires
            memory.wf(),
        ensures
            r is Ok <==> guest_offset_of(*memory, self@ as int) is Some,
            r matches Ok(a) ==> guest_offset_of(*memory, self@ as int) == Some(a@ as int),
            r matches Err(e) ==> e == WaliError::OutOfRange,
    {
        if self.addr < memory.base {
            return Err(WaliError::OutOfRange);
        }
        let offset = self.addr - memory.base;
        if offset >= memory.size {
            return Err(WaliError::OutOfRange);
        }
        Ok(WasmAddress { offset: offset as u32 })
    }

    pub fn as_usize(&self) -> (r: usize)
        ensures
            r == self@,
    {
        self.addr
    }
}

/// Translating an in-range guest offset to its host address and back gives the
/// offset again.
pub proof fn lemma_address_round_trip(memory: MemoryLayout, offset: int)
    requires
        memory.wf(),
        0 <= offset < memory.size,
    ensures
        guest_offset_of(memory, host_address_of(memory, offset)) == Some(offset),
{
}

} // verus!
