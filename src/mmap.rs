//! Bookkeeping of the guest-visible `mmap` region.
//!
//! Native pages mapped for the guest lie right after the linear memory's size
//! at the first `mmap` call (the base size). Linear memory is grown so that it
//! always covers them, which keeps every mapped byte addressable by a 32-bit
//! guest offset.

use vstd::prelude::*;

use crate::address::{guest_offset_of, HostAddress, MemoryLayout, WasmAddress};
use crate::error::WaliError;
use crate::pages::{align_up, ceil_div, lemma_align_up_bounds, page_aligned, pages_for_size, WASM_PAGE_SIZE};

verus! {

/// The state of the `mmap` region, as numbers.
pub struct MmapView {
    /// Native pages mapped past the end of the base linear memory.
    pub n_mmap_pages: nat,
    pub page_size_native: nat,
    pub page_size_wasm: nat,
    /// Linear memory size at the first `mmap` call.
    pub base_size: Option<nat>,
}

impl MmapView {
    /// Native pages are non-empty; WebAssembly pages have their fixed size.
    pub open spec fn wf(self) -> bool {
        &&& self.page_size_native > 0
        &&& self.page_size_wasm == WASM_PAGE_SIZE
    }

    /// The state with its base size set to `memory_size`, unless it was set before.
    pub open spec fn with_base(self, memory_size: nat) -> MmapView {
        MmapView {
            base_size: if self.base_size is None {
                Some(memory_size)
            } else {
                self.base_size
            },
            ..self
        }
    }

    /// The state with `n` mapped native pages.
    pub open spec fn with_pages(self, n: nat) -> MmapView {
        MmapView { n_mmap_pages: n, ..self }
    }

    /// Bytes taken by the mapped native pages.
    pub open spec fn mapped_size(self) -> nat {
        self.n_mmap_pages * self.page_size_native
    }

    /// Bytes of linear memory taken by the base memory and the mapped pages.
    pub open spec fn used_size(self) -> int {
        (self.base_size.unwrap() + self.mapped_size()) as int
    }

    /// The host address where the mapped region ends, rounded up to a native page,
    /// for a linear memory at host address `base_address`.
    pub open spec fn memory_end(self, base_address: int) -> int {
        align_up(base_address + self.used_size(), self.page_size_native as int)
    }

    /// Bytes of linear memory of `memory_size` bytes past the mapped region.
    pub open spec fn available(self, memory_size: int) -> int {
        memory_size - self.used_size()
    }

    /// WebAssembly pages to add to a memory of `memory_size` bytes so that `size`
    /// more bytes fit after the mapped region.
    pub open spec fn additional_wasm_pages(self, memory_size: int, size: int) -> int {
        if self.available(memory_size) >= size {
            0
        } else {
            ceil_div(size - self.available(memory_size), self.page_size_wasm as int)
        }
    }

    /// The state after unmapping `size` bytes at host address `start`: where the
    /// range ends at the end of the mapped region, the pages it covers leave the
    /// region (all of them, if it covers more); otherwise nothing changes.
    pub open spec fn after_munmap(self, base_address: int, start: int, size: int) -> MmapView {
        if start + size == self.memory_end(base_address) {
            let n_unmapped = ceil_div(size, self.page_size_native as int);
            if n_unmapped <= self.n_mmap_pages {
                self.with_pages((self.n_mmap_pages - n_unmapped) as nat)
            } else {
                self.with_pages(0)
            }
        } else {
            self
        }
    }
}

/// The `mmap` state of one guest. Callers hold it under the lock that guards
/// the guest's host state.
pub struct MMapData {
    n_mmap_pages: usize,
    page_size_native: usize,
    page_size_wasm: usize,
    base_size: Option<usize>,
}

impl View for MMapData {
    type V = MmapView;

    closed spec fn view(&self) -> MmapView {
        MmapView {
            n_mmap_pages: self.n_mmap_pages as nat,
            page_size_native: self.page_size_native as nat,
            page_size_wasm: self.page_size_wasm as nat,
            base_size: match self.base_size {
                Some(b) => Some(b as nat),
                None => None,
            },
        }
    }
}

impl MMapData {
    /// An empty `mmap` state for a host whose native pages have
    /// `page_size_native` bytes, or `None` where that size is 0.
    pub fn new(page_size_native: usize) -> (r: Option<MMapData>)
        ensures
            r is Some <==> 0 < page_size_native,
            r matches Some(d) ==> d@.wf() && d@.n_mmap_pages == 0 && d@.base_size is None
                && d@.page_size_native == page_size_native,
    {
        if page_size_native == 0 {
            return None;
        }
        Some(MMapData {
            n_mmap_pages: 0,
            page_size_native,
            page_size_wasm: WASM_PAGE_SIZE,
            base_size: None,
        })
    }

    pub fn n_mmap_pages(&self) -> (r: usize)
        ensures
            r == self@.n_mmap_pages,
    {
        self.n_mmap_pages
    }

    pub fn page_size_native(&self) -> (r: usize)
        ensures
            r == self@.page_size_native,
    {
        self.page_size_native
    }

    pub fn page_size_wasm(&self) -> (r: usize)
        ensures
            r == self@.page_size_wasm,
    {
        self.page_size_wasm
    }

    /// Records `memsize` as the base size, unless a base size was recorded before.
    pub fn init_base_size(&mut self, memsize: usize)
        ensures
            final(self)@ == old(self)@.with_base(memsize as nat),
    {
        if self.base_size.is_none() {
            self.base_size = Some(memsize);
        }
    }

    /// The base size, or `BaseSizeUnset` before the first `mmap` call.
    pub fn base_size(&self) -> (r: Result<usize, WaliError>)
        ensures
            r is Ok <==> self@.base_size is Some,
            r matches Ok(b) ==> self@.base_size == Some(b as nat),
            r matches Err(e) ==> e == WaliError::BaseSizeUnset,
    {
        match self.base_size {
            Some(base_size) => Ok(base_size),
            None => Err(WaliError::BaseSizeUnset),
        }
    }

    pub fn add_mmap_pages(&mut self, n_pages: usize)
        requires
            old(self)@.n_mmap_pages + n_pages <= usize::MAX,
        ensures
            final(self)@ == old(self)@.with_pages((old(self)@.n_mmap_pages + n_pages) as nat),
    {
        self.n_mmap_pages = self.n_mmap_pages + n_pages;
    }

    pub fn unmap_pages_from_end(&mut self, n_pages: usize)
        requires
            n_pages <= old(self)@.n_mmap_pages,
        ensures
            final(self)@ == old(self)@.with_pages((old(self)@.n_mmap_pages - n_pages) as nat),
    {
        self.n_mmap_pages = self.n_mmap_pages - n_pages;
    }

    /// The host address where the mapped region ends, rounded up to a native
    /// page, for a linear memory at host address `base_address`.
    pub fn memory_end_aligned(&self, base_address: usize) -> (r: Result<usize, WaliError>)
        requires
            self@.wf(),
        ensures
            r is Ok <==> self@.base_size is Some && self@.memory_end(base_address as int)
                <= usize::MAX,
            r matches Ok(e) ==> e == self@.memory_end(base_address as int),
            r matches Err(e) ==> if self@.base_size is None {
                e == WaliError::BaseSizeUnset
            } else {
                e == WaliError::AddressOverflow
            },
    {
        let page_size_native = self.page_size_native;
        let base_memory_size = self.base_size()?;
        proof {
            lemma_align_up_bounds(
                base_address + self@.used_size(),
                page_size_native as int,
            );
        }
        let mmap_memory_size = match self.n_mmap_pages.checked_mul(page_size_native) {
            Some(s) => s,
            None => return Err(WaliError::AddressOverflow),
        };
        let end = match base_address.checked_add(base_memory_size) {
            Some(e) => e,
            None => return Err(WaliError::AddressOverflow),
        };
        let address_unaligned = match end.checked_add(mmap_memory_size) {
            Some(a) => a,
            None => return Err(WaliError::AddressOverflow),
        };
        match page_aligned(address_unaligned, page_size_native) {
            Some(a) => Ok(a),
            None => Err(WaliError::AddressOverflow),
        }
    }
}

/// WebAssembly pages that `size` bytes occupy.
pub fn n_wasm_pages_for_size(mmap_data: &MMapData, size: usize) -> (r: usize)
    requires
        mmap_data@.wf(),
    ensures
        r == ceil_div(size as int, mmap_data@.page_size_wasm as int),
{
    pages_for_size(size, mmap_data.page_size_wasm)
}

/// Native pages that `size` bytes occupy.
pub fn n_native_pages_for_size(mmap_data: &MMapData, size: usize) -> (r: usize)
    requires
        mmap_data@.wf(),
    ensures
        r == ceil_div(size as int, mmap_data@.page_size_native as int),
{
    pages_for_size(size, mmap_data.page_size_native)
}

/// WebAssembly pages to add to a linear memory of `memory_size` bytes so that
/// `size` bytes fit after the mapped region. Fails with `BaseSizeUnset` before
/// the first `mmap` call and with `RegionOutsideMemory` where the mapped region
/// does not fit in the memory.
pub fn n_additional_wasm_pages(memory_size: usize, mmap_data: &MMapData, size: usize) -> (r: Result<usize, WaliError>)
    requires
        mmap_data@.wf(),
    ensures
        r is Ok <==> mmap_data@.base_size is Some && mmap_data@.used_size() <= memory_size,
        r matches Ok(n) ==> n == mmap_data@.additional_wasm_pages(memory_size as int, size as int),
        r matches Err(e) ==> if mmap_data@.base_size is None {
            e == WaliError::BaseSizeUnset
        } else {
            e == WaliError::RegionOutsideMemory
        },
{
    let page_size_native = mmap_data.page_size_native;
    let base_memory_size = mmap_data.base_size()?;
    let mmap_memory_size = match mmap_data.n_mmap_pages.checked_mul(page_size_native) {
        Some(s) => s,
        None => return Err(WaliError::RegionOutsideMemory),
    };
    if base_memory_size > memory_size || mmap_memory_size > memory_size - base_memory_size {
        return Err(WaliError::RegionOutsideMemory);
    }
    let available_size = memory_size - (base_memory_size + mmap_memory_size);
    if available_size >= size {
        Ok(0)
    } else {
        let missing_size = size - available_size;
        Ok(n_wasm_pages_for_size(mmap_data, missing_size))
    }
}

/// Relies on libc::MAP_FIXED: Linux's `mmap` flag that places the mapping at
/// exactly the address given, which is 0x10.
#[verifier::external_body]
fn map_fixed() -> (r: i32)
    ensures
        r == 0x10,
{
    libc::MAP_FIXED
}

/// `flags` with the flag that fixes a mapping's address added.
pub open spec fn fixed_flags(flags: i32) -> i32 {
    flags | 0x10i32
}

/// A host `mmap` call to make: its six arguments.
#[derive(Clone, Copy, Debug, PartialEq, Eq, Structural)]
pub struct MmapCall {
    pub address: usize,
    pub length: usize,
    pub prot: i32,
    pub flags: i32,
    pub fd: i32,
    pub offset: i64,
}

/// What a guest `mmap` asks of the host: grow linear memory by `grow_pages`
/// WebAssembly pages, then make `call`.
#[derive(Clone, Copy, Debug, PartialEq, Eq, Structural)]
pub struct MmapPlan {
    pub grow_pages: usize,
    pub call: MmapCall,
}

/// Why a guest `mmap` of `length` bytes cannot be planned, if it cannot.
pub open spec fn mmap_error(d: MmapView, memory: MemoryLayout, length: int) -> Option<WaliError> {
    let d2 = d.with_base(memory.size as nat);
    if length < 0 {
        Some(WaliError::NegativeLength)
    } else if d2.used_size() > memory.size {
        Some(WaliError::RegionOutsideMemory)
    } else if d2.memory_end(memory.base as int) > usize::MAX {
        Some(WaliError::AddressOverflow)
    } else {
        None
    }
}

/// Plans a guest `mmap(_, length, prot, flags, fd, offset)` on a linear memory
/// laid out as `memory`. The guest's address hint is not used: the mapping is
/// placed at the end of the mapped region, and linear memory must first grow to
/// cover it. The first planned `mmap` records the base size.
pub fn plan_mmap(
    mmap_data: &mut MMapData,
    memory: &MemoryLayout,
    length: i32,
    prot: i32,
    flags: i32,
    fd: i32,
    offset: i64,
) -> (r: Result<MmapPlan, WaliError>)
    requires
        old(mmap_data)@.wf(),
        memory.wf(),
    ensures
        final(mmap_data)@ == if length < 0 {
            old(mmap_data)@
        } else {
            old(mmap_data)@.with_base(memory.size as nat)
        },
        r is Err <==> mmap_error(old(mmap_data)@, *memory, length as int) is Some,
        r matches Err(e) ==> mmap_error(old(mmap_data)@, *memory, length as int) == Some(e),
        r matches Ok(p) ==> {
            let d2 = old(mmap_data)@.with_base(memory.size as nat);
            &&& p.grow_pages == d2.additional_wasm_pages(memory.size as int, length as int)
            &&& p.call.address == d2.memory_end(memory.base as int)
            &&& p.call.length == length
            &&& p.call.prot == prot
            &&& p.call.flags == fixed_flags(flags)
            &&& p.call.fd == fd
            &&& p.call.offset == offset
        },
{
    if length < 0 {
        return Err(WaliError::NegativeLength);
    }
    mmap_data.init_base_size(memory.size);
    let grow_pages = n_additional_wasm_pages(memory.size, mmap_data, length as usize)?;
    let address = mmap_data.memory_end_aligned(memory.base)?;
    let call = MmapCall {
        address,
        length: length as usize,
        prot,
        flags: flags | map_fixed(),
        fd,
        offset,
    };
    Ok(MmapPlan { grow_pages, call })
}

/// Why the result of a host `mmap` at `mmap_addr` cannot be taken into the
/// region, if it cannot.
pub open spec fn mmap_update_error(d: MmapView, memory: MemoryLayout, mmap_addr: int, length: int) -> Option<WaliError> {
    if length < 0 {
        Some(WaliError::NegativeLength)
    } else if guest_offset_of(memory, mmap_addr) is None {
        Some(WaliError::OutOfRange)
    } else if d.n_mmap_pages + ceil_div(length, d.page_size_native as int) > usize::MAX {
        Some(WaliError::AddressOverflow)
    } else {
        None
    }
}

/// Takes a successful host `mmap` of `length` bytes at `mmap_addr` into the
/// region and returns its guest address.
pub fn update_n_mmap_pages(
    mmap_data: &mut MMapData,
    memory: &MemoryLayout,
    mmap_addr: &HostAddress,
    length: i32,
) -> (r: Result<WasmAddress, WaliError>)
    requires
        old(mmap_data)@.wf(),
        memory.wf(),
    ensures
        r is Err <==> mmap_update_error(old(mmap_data)@, *memory, mmap_addr@ as int, length as int) is Some,
        r matches Err(e) ==> mmap_update_error(old(mmap_data)@, *memory, mmap_addr@ as int, length as int)
            == Some(e) && final(mmap_data)@ == old(mmap_data)@,
        r matches Ok(a) ==> {
            &&& guest_offset_of(*memory, mmap_addr@ as int) == Some(a@ as int)
            &&& final(mmap_data)@ == old(mmap_data)@.with_pages(
                (old(mmap_data)@.n_mmap_pages + ceil_div(length as int, old(mmap_data)@.page_size_native as int)) as nat,
            )
        },
{
    if length < 0 {
        return Err(WaliError::NegativeLength);
    }
    let wasm_addr = mmap_addr.to_wasm_address(memory)?;
    let n_mmap_pages = n_native_pages_for_size(mmap_data, length as usize);
    if n_mmap_pages > usize::MAX - mmap_data.n_mmap_pages {
        return Err(WaliError::AddressOverflow);
    }
    mmap_data.add_mmap_pages(n_mmap_pages);
    Ok(wasm_addr)
}

/// A host `munmap` call to make.
#[derive(Clone, Copy, Debug, PartialEq, Eq, Structural)]
pub struct MunmapCall {
    pub address: usize,
    pub length: usize,
}

/// Why a guest `munmap(address, size)` cannot be planned, if it cannot.
pub open spec fn munmap_error(d: MmapView, memory: MemoryLayout, address: int, size: int) -> Option<WaliError> {
    if !(0 <= address < memory.size) {
        Some(WaliError::OutOfRange)
    } else if size < 0 {
        Some(WaliError::NegativeLength)
    } else if memory.base + address + size > usize::MAX {
        Some(WaliError::AddressOverflow)
    } else if d.base_size is None {
        Some(WaliError::BaseSizeUnset)
    } else if d.memory_end(memory.base as int) > usize::MAX {
        Some(WaliError::AddressOverflow)
    } else {
        None
    }
}

/// Plans a guest `munmap(address, size)`: the host range to unmap. Where the
/// range ends at the end of the mapped region, its pages leave the region.
pub fn plan_munmap(mmap_data: &mut MMapData, memory: &MemoryLayout, address: i32, size: i32) -> (r: Result<MunmapCall, WaliError>)
    requires
        old(mmap_data)@.wf(),
        memory.wf(),
    ensures
        r is Err <==> munmap_error(old(mmap_data)@, *memory, address as int, size as int) is Some,
        r matches Err(e) ==> munmap_error(old(mmap_data)@, *memory, address as int, size as int) == Some(e)
            && final(mmap_data)@ == old(mmap_data)@,
        r matches Ok(c) ==> {
            &&& c.address == memory.base + address
            &&& c.length == size
            &&& final(mmap_data)@ == old(mmap_data)@.after_munmap(memory.base as int, c.address as int, size as int)
        },
{
    let start = WasmAddress::try_new(address as i64, memory)?;
    if size < 0 {
        return Err(WaliError::NegativeLength);
    }
    let munmap_start = start.to_host_address(memory).as_usize();
    if size as usize > usize::MAX - munmap_start {
        return Err(WaliError::AddressOverflow);
    }
    let munmap_end = munmap_start + size as usize;
    let memory_end = mmap_data.memory_end_aligned(memory.base)?;
    if memory_end == munmap_end {
        let n_unmapped_pages = n_native_pages_for_size(mmap_data, size as usize);
        if n_unmapped_pages <= mmap_data.n_mmap_pages {
            mmap_data.unmap_pages_from_end(n_unmapped_pages);
        } else {
            let all = mmap_data.n_mmap_pages;
            mmap_data.unmap_pages_from_end(all);
        }
    }
    Ok(MunmapCall { address: munmap_start, length: size as usize })
}

} // verus!
