use std::sync::atomic::{AtomicU8, Ordering};

use wali::{cl_copy_argv, cl_get_argc, cl_get_argv_len, copy_arg_into_module, write_into_memory, Arguments, MemoryLayout, WaliError, WasmAddress};

fn command_line(words: &[&str]) -> Arguments {
    let line: Vec<String> = words.iter().map(|w| w.to_string()).collect();
    Arguments::from_command_line(&line)
}

fn guest_memory(size: usize) -> (Vec<AtomicU8>, MemoryLayout) {
    let bytes: Vec<AtomicU8> = (0..size).map(|_| AtomicU8::new(0xAA)).collect();
    let layout = MemoryLayout::new(bytes.as_ptr() as usize, size).unwrap();
    (bytes, layout)
}

fn read(bytes: &[AtomicU8], from: usize, n: usize) -> Vec<u8> {
    bytes[from..from + n].iter().map(|b| b.load(Ordering::Acquire)).collect()
}

#[test]
fn args_scenario_hands_out_alpha() {
    let args = command_line(&["module.wasm", "alpha", "beta"]);
    assert_eq!(cl_get_argc(&args), 2);
    assert_eq!(cl_get_argv_len(&args, 0), 5);
    assert_eq!(cl_get_argv_len(&args, 1), 4);
    let (memory, layout) = guest_memory(64);
    assert_eq!(cl_copy_argv(&args, &memory, &layout, 16, 0), 6);
    assert_eq!(read(&memory, 16, 6), b"alpha\0".to_vec());
    assert_eq!(read(&memory, 22, 1), vec![0xAA]);
}

#[test]
fn command_name_is_skipped() {
    let args = command_line(&["prog"]);
    assert_eq!(args.arg_len(), 0);
    assert_eq!(cl_get_argc(&args), 0);
    let empty = command_line(&[]);
    assert_eq!(empty.arg_len(), 0);
}

#[test]
fn c_string_form_has_a_terminator() {
    let args = command_line(&["prog", "héllo", ""]);
    assert_eq!(args.arg_as_c_string(0), Ok("héllo\0".as_bytes().to_vec()));
    assert_eq!(args.arg_byte_len(0), Ok(6));
    assert_eq!(args.arg_as_c_string(1), Ok(vec![0]));
    assert_eq!(args.arg_byte_len(1), Ok(0));
}

#[test]
fn missing_or_nul_holding_arguments_fail() {
    let args = command_line(&["prog", "a\0b"]);
    assert_eq!(args.arg_as_c_string(0), Err(WaliError::InteriorNul));
    assert_eq!(args.arg_as_c_string(1), Err(WaliError::ArgumentIndex));
    assert_eq!(cl_get_argv_len(&args, 0), -1);
    assert_eq!(cl_get_argv_len(&args, 1), -1);
    assert_eq!(cl_get_argv_len(&args, -1), -1);
}

#[test]
fn copy_fails_where_the_string_does_not_fit() {
    let args = command_line(&["prog", "alpha"]);
    let (memory, layout) = guest_memory(8);
    assert_eq!(copy_arg_into_module(&args, &memory, &layout, 3, 0), Err(WaliError::OutOfRange));
    assert_eq!(copy_arg_into_module(&args, &memory, &layout, 2, 0), Ok(6));
    assert_eq!(copy_arg_into_module(&args, &memory, &layout, 8, 0), Err(WaliError::OutOfRange));
    assert_eq!(copy_arg_into_module(&args, &memory, &layout, 0, 1), Err(WaliError::ArgumentIndex));
    assert_eq!(cl_copy_argv(&args, &memory, &layout, -4, 0), -1);
    assert_eq!(cl_copy_argv(&args, &memory, &layout, 0, -1), -1);
}

#[test]
fn write_into_memory_stores_each_byte() {
    let (memory, layout) = guest_memory(16);
    let at = WasmAddress::new(4, &layout);
    assert_eq!(write_into_memory(&memory, &at, b"xyz"), 3);
    assert_eq!(read(&memory, 3, 5), vec![0xAA, b'x', b'y', b'z', 0xAA]);
}
