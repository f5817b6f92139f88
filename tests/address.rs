use wali::{HostAddress, MemoryLayout, WaliError, WasmAddress};

fn layout() -> MemoryLayout {
    MemoryLayout::new(0x7f00_0000_0000, 65536 * 2).unwrap()
}

#[test]
fn round_trip_recovers_every_sampled_offset() {
    let memory = layout();
    for offset in [0i32, 1, 4095, 65535, 65536, 131071] {
        let host = WasmAddress::new(offset, &memory).to_host_address(&memory);
        assert_eq!(host.as_usize(), 0x7f00_0000_0000 + offset as usize);
        let back = host.to_wasm_address(&memory).unwrap();
        assert_eq!(back.offset(), offset as usize);
    }
}

#[test]
fn try_new_rejects_negative_and_past_end_offsets() {
    let memory = layout();
    assert_eq!(WasmAddress::try_new(-1, &memory).err(), Some(WaliError::OutOfRange));
    assert_eq!(WasmAddress::try_new(131072, &memory).err(), Some(WaliError::OutOfRange));
    assert_eq!(WasmAddress::try_new(131071, &memory).unwrap().offset(), 131071);
}

#[test]
fn host_address_outside_memory_is_out_of_range() {
    let memory = layout();
    let below = HostAddress::new(0x7f00_0000_0000 - 1);
    let past = HostAddress::new(0x7f00_0000_0000 + 131072);
    assert_eq!(below.to_wasm_address(&memory).err(), Some(WaliError::OutOfRange));
    assert_eq!(past.to_wasm_address(&memory).err(), Some(WaliError::OutOfRange));
}

#[test]
fn layouts_that_cannot_exist_are_refused() {
    assert!(MemoryLayout::new(usize::MAX - 10, 100).is_none());
    assert!(MemoryLayout::new(0x1000, (1usize << 32) + 1).is_none());
    assert!(MemoryLayout::new(i64::MAX as usize, 1).is_none());
    let m = MemoryLayout::new(0x1000, 1usize << 32).unwrap();
    assert_eq!((m.base, m.size), (0x1000, 1usize << 32));
}
