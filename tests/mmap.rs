use wali::{
    n_additional_wasm_pages, n_native_pages_for_size, n_wasm_pages_for_size, page_aligned,
    plan_mmap, plan_munmap, update_n_mmap_pages, HostAddress, MMapData, MemoryLayout, WaliError,
};

const BASE: usize = 0x7f00_0000_0000;
const PAGE: usize = 4096;
const WASM_PAGE: usize = 65536;

/// One guest mmap carried out as the host does it: plan, grow, map at the
/// planned address, take the mapping in. Returns the guest offset.
fn mmap(data: &mut MMapData, memory_size: &mut usize, length: i32) -> i64 {
    mmap_at(BASE, data, memory_size, length)
}

fn mmap_at(base: usize, data: &mut MMapData, memory_size: &mut usize, length: i32) -> i64 {
    let before = MemoryLayout::new(base, *memory_size).unwrap();
    let plan = plan_mmap(data, &before, length, 3, 0x22, -1, 0).unwrap();
    *memory_size += plan.grow_pages * WASM_PAGE;
    let after = MemoryLayout::new(base, *memory_size).unwrap();
    let address = HostAddress::new(plan.call.address);
    update_n_mmap_pages(data, &after, &address, length).unwrap().offset() as i64
}

#[test]
fn new_refuses_only_an_empty_page_size() {
    assert!(MMapData::new(0).is_none());
    assert_eq!(MMapData::new(3000).unwrap().page_size_native(), 3000);
    assert_eq!(MMapData::new(262144).unwrap().page_size_native(), 262144);
    let d = MMapData::new(PAGE).unwrap();
    assert_eq!(d.n_mmap_pages(), 0);
    assert_eq!(d.page_size_native(), PAGE);
    assert_eq!(d.page_size_wasm(), WASM_PAGE);
    assert_eq!(d.base_size(), Err(WaliError::BaseSizeUnset));
}

#[test]
fn page_counts_round_up() {
    let d = MMapData::new(PAGE).unwrap();
    assert_eq!(n_native_pages_for_size(&d, 0), 0);
    assert_eq!(n_native_pages_for_size(&d, 1), 1);
    assert_eq!(n_native_pages_for_size(&d, 4096), 1);
    assert_eq!(n_native_pages_for_size(&d, 4097), 2);
    assert_eq!(n_wasm_pages_for_size(&d, 65536), 1);
    assert_eq!(n_wasm_pages_for_size(&d, 65537), 2);
    assert_eq!(n_wasm_pages_for_size(&d, usize::MAX), usize::MAX / 65536 + 1);
}

#[test]
fn page_aligned_rounds_up_to_the_page() {
    assert_eq!(page_aligned(0, 4096), Some(0));
    assert_eq!(page_aligned(1, 4096), Some(4096));
    assert_eq!(page_aligned(8192, 4096), Some(8192));
    assert_eq!(page_aligned(8193, 4096), Some(12288));
    assert_eq!(page_aligned(usize::MAX, 4096), None);
}

#[test]
fn base_size_is_recorded_once() {
    let mut d = MMapData::new(PAGE).unwrap();
    d.init_base_size(65536);
    d.init_base_size(131072);
    assert_eq!(d.base_size(), Ok(65536));
    d.add_mmap_pages(3);
    d.unmap_pages_from_end(1);
    assert_eq!(d.n_mmap_pages(), 2);
    assert_eq!(d.memory_end_aligned(0x10000), Ok(0x10000 + 65536 + 2 * PAGE));
}

#[test]
fn additional_wasm_pages_follow_the_formula() {
    let mut d = MMapData::new(PAGE).unwrap();
    assert_eq!(n_additional_wasm_pages(65536, &d, 8192), Err(WaliError::BaseSizeUnset));
    d.init_base_size(65536);
    assert_eq!(n_additional_wasm_pages(65536, &d, 8192), Ok(1));
    assert_eq!(n_additional_wasm_pages(131072, &d, 8192), Ok(0));
    assert_eq!(n_additional_wasm_pages(65536, &d, 65537), Ok(2));
    d.add_mmap_pages(20);
    assert_eq!(n_additional_wasm_pages(131072, &d, 1), Err(WaliError::RegionOutsideMemory));
}

#[test]
fn mmap_of_8192_bytes_then_munmap_returns_the_region_to_empty() {
    let mut d = MMapData::new(PAGE).unwrap();
    let mut size = 2 * WASM_PAGE;
    let offset = mmap(&mut d, &mut size, 8192);
    assert_eq!(offset, 2 * WASM_PAGE as i64);
    assert_eq!(size, 3 * WASM_PAGE);
    assert_eq!(d.n_mmap_pages(), 2);
    let memory = MemoryLayout::new(BASE, size).unwrap();
    let call = plan_munmap(&mut d, &memory, offset as i32, 8192).unwrap();
    assert_eq!((call.address, call.length), (BASE + 2 * WASM_PAGE, 8192));
    assert_eq!(d.n_mmap_pages(), 0);
    assert_eq!(size, 3 * WASM_PAGE);
}

#[test]
fn plan_places_the_mapping_fixed_at_the_region_end() {
    let mut d = MMapData::new(PAGE).unwrap();
    let memory = MemoryLayout::new(BASE, WASM_PAGE).unwrap();
    let plan = plan_mmap(&mut d, &memory, 100, 3, 0x22, -1, 7).unwrap();
    assert_eq!(plan.grow_pages, 1);
    assert_eq!(plan.call.address, BASE + WASM_PAGE);
    assert_eq!(plan.call.length, 100);
    assert_eq!(plan.call.prot, 3);
    assert_eq!(plan.call.flags, 0x32);
    assert_eq!(plan.call.fd, -1);
    assert_eq!(plan.call.offset, 7);
    assert_eq!(d.base_size(), Ok(WASM_PAGE));
}

#[test]
fn plan_rejects_negative_lengths_without_recording_the_base() {
    let mut d = MMapData::new(PAGE).unwrap();
    let memory = MemoryLayout::new(BASE, WASM_PAGE).unwrap();
    assert_eq!(plan_mmap(&mut d, &memory, -1, 3, 0x22, -1, 0), Err(WaliError::NegativeLength));
    assert_eq!(d.base_size(), Err(WaliError::BaseSizeUnset));
}

#[test]
fn update_rejects_a_mapping_outside_memory() {
    let mut d = MMapData::new(PAGE).unwrap();
    let memory = MemoryLayout::new(BASE, WASM_PAGE).unwrap();
    d.init_base_size(WASM_PAGE);
    let outside = HostAddress::new(BASE + WASM_PAGE);
    assert_eq!(update_n_mmap_pages(&mut d, &memory, &outside, 10).err(), Some(WaliError::OutOfRange));
    assert_eq!(d.n_mmap_pages(), 0);
    let inside = HostAddress::new(BASE + 100);
    assert_eq!(update_n_mmap_pages(&mut d, &memory, &inside, -5).err(), Some(WaliError::NegativeLength));
}

#[test]
fn small_mmaps_grow_memory_by_whole_wasm_pages() {
    let mut d = MMapData::new(PAGE).unwrap();
    let base_size = WASM_PAGE;
    let mut size = base_size;
    for k in 1..=40usize {
        let length = if k % 3 == 0 { PAGE as i32 } else { 1 + (k as i32 * 97) % PAGE as i32 };
        mmap(&mut d, &mut size, length);
        let expected = base_size + ((k * PAGE + WASM_PAGE - 1) / WASM_PAGE) * WASM_PAGE;
        assert_eq!(size, expected);
    }
    assert_eq!(d.n_mmap_pages(), 40);
}

#[test]
fn nested_mmaps_unwind_from_the_end() {
    let mut d = MMapData::new(PAGE).unwrap();
    let mut size = WASM_PAGE;
    let lengths = [8192i32, 4096, 65536, 12288];
    let mut offsets = Vec::new();
    let mut largest = 0;
    for &l in lengths.iter() {
        offsets.push(mmap(&mut d, &mut size, l));
        largest = largest.max(size);
    }
    for (i, &l) in lengths.iter().enumerate().rev() {
        let memory = MemoryLayout::new(BASE, size).unwrap();
        plan_munmap(&mut d, &memory, offsets[i] as i32, l).unwrap();
    }
    assert_eq!(d.n_mmap_pages(), 0);
    assert_eq!(size, largest);
}

#[test]
fn interior_munmap_keeps_the_bookkeeping() {
    let mut d = MMapData::new(PAGE).unwrap();
    let mut size = WASM_PAGE;
    let first = mmap(&mut d, &mut size, 4096);
    mmap(&mut d, &mut size, 4096);
    let memory = MemoryLayout::new(BASE, size).unwrap();
    plan_munmap(&mut d, &memory, first as i32, 4096).unwrap();
    assert_eq!(d.n_mmap_pages(), 2);
}

#[test]
fn munmap_errors() {
    let mut d = MMapData::new(PAGE).unwrap();
    let memory = MemoryLayout::new(BASE, WASM_PAGE).unwrap();
    assert_eq!(plan_munmap(&mut d, &memory, 10, 4096), Err(WaliError::BaseSizeUnset));
    assert_eq!(plan_munmap(&mut d, &memory, -1, 4096), Err(WaliError::OutOfRange));
    assert_eq!(plan_munmap(&mut d, &memory, 65536, 4096), Err(WaliError::OutOfRange));
    assert_eq!(plan_munmap(&mut d, &memory, 0, -4096), Err(WaliError::NegativeLength));
}

#[test]
fn munmap_covering_more_than_the_region_empties_it() {
    let mut d = MMapData::new(PAGE).unwrap();
    let mut size = WASM_PAGE;
    mmap(&mut d, &mut size, 4096);
    let memory = MemoryLayout::new(BASE, size).unwrap();
    plan_munmap(&mut d, &memory, 0, (WASM_PAGE + PAGE) as i32).unwrap();
    assert_eq!(d.n_mmap_pages(), 0);
}

#[test]
fn nested_mmaps_unwind_from_an_unaligned_base() {
    let base = BASE + 100;
    let mut d = MMapData::new(PAGE).unwrap();
    let mut size = WASM_PAGE;
    let lengths = [4096i32, 8192];
    let mut offsets = Vec::new();
    for &l in lengths.iter() {
        offsets.push(mmap_at(base, &mut d, &mut size, l));
    }
    assert_eq!(offsets[0], (WASM_PAGE + PAGE - 100) as i64);
    for (i, &l) in lengths.iter().enumerate().rev() {
        let memory = MemoryLayout::new(base, size).unwrap();
        plan_munmap(&mut d, &memory, offsets[i] as i32, l).unwrap();
    }
    assert_eq!(d.n_mmap_pages(), 0);
}
