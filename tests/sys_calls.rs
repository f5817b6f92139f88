use std::sync::atomic::{AtomicU8, Ordering};

use wali::{
    brk, get_init_envfile, i32_from_le_bytes, null_terminated_address_vec, pointer_array_entries, prepare_execve, read_guest_i32, read_guest_iovecs,
    read_guest_pointer_array, writev_host_iovecs, GuestIoVec, HostIoVec, MemoryLayout, ThreadCounter, WaliError,
};

fn guest_memory(size: usize) -> (Vec<AtomicU8>, MemoryLayout) {
    let bytes: Vec<AtomicU8> = (0..size).map(|_| AtomicU8::new(0)).collect();
    let layout = MemoryLayout::new(bytes.as_ptr() as usize, size).unwrap();
    (bytes, layout)
}

fn put(bytes: &[AtomicU8], at: usize, data: &[u8]) {
    for (i, b) in data.iter().enumerate() {
        bytes[at + i].store(*b, Ordering::Release);
    }
}

fn put_i32(bytes: &[AtomicU8], at: usize, v: i32) {
    put(bytes, at, &v.to_le_bytes());
}

#[test]
fn writev_scenario_hands_two_iovecs_in_order() {
    let (memory, layout) = guest_memory(256);
    put(&memory, 100, b"hello ");
    put(&memory, 120, b"world\n");
    put_i32(&memory, 16, 100);
    put_i32(&memory, 20, 6);
    put_i32(&memory, 24, 120);
    put_i32(&memory, 28, 6);
    let guest = read_guest_iovecs(&memory, &layout, 16, 2).unwrap();
    assert_eq!(guest, vec![GuestIoVec { base: 100, len: 6 }, GuestIoVec { base: 120, len: 6 }]);
    let host = writev_host_iovecs(&guest, &layout).unwrap();
    assert_eq!(host, vec![HostIoVec { base: layout.base + 100, len: 6 }, HostIoVec { base: layout.base + 120, len: 6 }]);
    let mut out = Vec::new();
    for iov in &host {
        let from = iov.base - layout.base;
        out.extend(memory[from..from + iov.len].iter().map(|b| b.load(Ordering::Acquire)));
    }
    assert_eq!(out, b"hello world\n".to_vec());
}

#[test]
fn iovec_array_must_lie_in_memory() {
    let (memory, layout) = guest_memory(64);
    assert_eq!(read_guest_iovecs(&memory, &layout, -8, 1), Err(WaliError::OutOfRange));
    assert_eq!(read_guest_iovecs(&memory, &layout, 0, -1), Err(WaliError::NegativeLength));
    assert_eq!(read_guest_iovecs(&memory, &layout, 56, 2), Err(WaliError::OutOfRange));
    assert_eq!(read_guest_iovecs(&memory, &layout, 56, 1).unwrap().len(), 1);
    assert_eq!(read_guest_iovecs(&memory, &layout, 0, 0), Ok(vec![]));
}

#[test]
fn writev_rejects_bases_outside_memory() {
    let (_memory, layout) = guest_memory(64);
    let bad = vec![GuestIoVec { base: 0, len: 1 }, GuestIoVec { base: 64, len: 1 }];
    assert_eq!(writev_host_iovecs(&bad, &layout), Err(WaliError::OutOfRange));
    let bad = vec![GuestIoVec { base: -3, len: 1 }];
    assert_eq!(writev_host_iovecs(&bad, &layout), Err(WaliError::OutOfRange));
}

#[test]
fn writev_hands_negative_lengths_to_the_kernel() {
    let (_memory, layout) = guest_memory(64);
    let iovs = vec![GuestIoVec { base: 8, len: -1 }];
    let host = writev_host_iovecs(&iovs, &layout).unwrap();
    assert_eq!(host, vec![HostIoVec { base: layout.base + 8, len: -1i32 as usize }]);
}

#[test]
fn guest_words_are_little_endian() {
    let (memory, _layout) = guest_memory(8);
    put(&memory, 2, &[0x78, 0x56, 0x34, 0x12]);
    assert_eq!(read_guest_i32(&memory, 2), 0x1234_5678);
    put_i32(&memory, 4, -2);
    assert_eq!(read_guest_i32(&memory, 4), -2);
}

#[test]
fn words_assemble_from_little_endian_bytes() {
    assert_eq!(i32_from_le_bytes(0x78, 0x56, 0x34, 0x12), 0x1234_5678);
    assert_eq!(i32_from_le_bytes(0xfe, 0xff, 0xff, 0xff), -2);
    assert_eq!(i32_from_le_bytes(0, 0, 0, 0x80), i32::MIN);
}

#[test]
fn pointer_array_entries_stop_at_the_first_zero() {
    assert_eq!(pointer_array_entries(&vec![5, 6, 0, 7, 0]), Ok(vec![5, 6]));
    assert_eq!(pointer_array_entries(&vec![0]), Ok(vec![]));
    assert_eq!(pointer_array_entries(&vec![5, 6]), Err(WaliError::Unterminated));
    assert_eq!(pointer_array_entries(&vec![]), Err(WaliError::Unterminated));
}

#[test]
fn execve_walks_the_argument_array_to_its_null_entry() {
    let (memory, layout) = guest_memory(128);
    put_i32(&memory, 32, 64);
    put_i32(&memory, 36, 72);
    put_i32(&memory, 40, 0);
    put_i32(&memory, 44, 99);
    let entries = read_guest_pointer_array(&memory, &layout, 32).unwrap();
    assert_eq!(entries, vec![64, 72]);
    let call = prepare_execve(&layout, 80, &entries).unwrap();
    assert_eq!(call.path, layout.base + 80);
    assert_eq!(call.argv, vec![layout.base + 64, layout.base + 72, 0]);
    assert_eq!(call.envp, vec![0]);
}

#[test]
fn execve_errors() {
    let (memory, layout) = guest_memory(16);
    put_i32(&memory, 8, 5);
    put_i32(&memory, 12, 6);
    assert_eq!(read_guest_pointer_array(&memory, &layout, 8), Err(WaliError::Unterminated));
    assert_eq!(read_guest_pointer_array(&memory, &layout, 16), Err(WaliError::OutOfRange));
    assert_eq!(read_guest_pointer_array(&memory, &layout, 0), Ok(vec![]));
    assert_eq!(read_guest_pointer_array(&memory, &layout, 13), Err(WaliError::Unterminated));
    assert_eq!(null_terminated_address_vec(&vec![3, 16], &layout), Err(WaliError::OutOfRange));
    assert_eq!(null_terminated_address_vec(&vec![], &layout), Ok(vec![0]));
    assert_eq!(prepare_execve(&layout, -1, &vec![]).err(), Some(WaliError::OutOfRange));
}

#[test]
fn control_functions_report_zero() {
    assert_eq!(brk(1234), 0);
    assert_eq!(get_init_envfile(16, 32), 0);
}

#[test]
fn thread_counter_numbers_threads_from_zero() {
    let mut counter = ThreadCounter::new();
    assert_eq!(counter.next_thread(), Some(0));
    assert_eq!(counter.next_thread(), Some(1));
    assert_eq!(counter.next_thread(), Some(2));
}
