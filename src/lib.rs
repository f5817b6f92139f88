//! Host-side logic of a runtime for WebAssembly modules built against the
//! WALI interface (WebAssembly Linux Interface): translation of 32-bit guest
//! offsets into host addresses, the bookkeeping of the guest-visible `mmap`
//! region, the catalog of forwarded Linux system calls, and the argument store.
//!
//! Everything here works on plain values. The engine's shared linear memory is
//! seen through a `MemoryLayout` (its base address and current size) and, where
//! bytes are read or written, through its atomic byte cells.

mod address;
mod arguments;
mod control;
mod error;
mod forward;
mod guest_memory;
mod mmap;
mod mmap_laws;
mod pages;
mod sys_calls;

pub use address::{
    guest_offset_of, host_address_of, layout_fits, lemma_address_round_trip, HostAddress,
    MemoryLayout, WasmAddress, MAX_MEMORY_SIZE,
};
pub use arguments::{
    arg_bytes, c_string_of, cl_copy_argv, cl_get_argc, cl_get_argv_len, copy_arg_error,
    copy_arg_into_module, has_c_form, Arguments,
};
pub use control::{get_init_envfile, ThreadCounter};
pub use error::WaliError;
pub use forward::{
    arg_acceptable, host_word, lemma_catalog_lists_every_syscall, lemma_forwarder_rejects_bad_pointers,
    prepare_syscall, syscall_accepts, syscall_arg_kinds, syscall_catalog,
    syscall_import_name, syscall_number, syscall_x86_64_only, translate_args, ArgKind,
    ForwardedCall, Syscall,
};
pub use guest_memory::{
    i32_from_le_bytes, iovec_array_error, le_i32, pointer_array_entries, read_guest_i32,
    read_guest_iovecs, read_guest_pointer_array,
    write_into_memory, GuestIoVec, GUEST_IOVEC_SIZE,
};
pub use mmap::{
    fixed_flags, mmap_error, mmap_update_error, munmap_error, n_additional_wasm_pages,
    n_native_pages_for_size, n_wasm_pages_for_size, plan_mmap, plan_munmap, update_n_mmap_pages,
    MMapData, MmapCall, MmapPlan, MmapView, MunmapCall,
};
pub use mmap_laws::{
    after_mmap, after_mmaps, lemma_mapping_fits_grown_memory, lemma_nested_mmaps_unwind, lemma_small_mmaps_grow_by_whole_wasm_pages,
    mmap_address, mmaps_then_unmaps,
};
pub use pages::{align_up, ceil_div, lemma_align_up_bounds, lemma_ceil_div_bounds, page_aligned, WASM_PAGE_SIZE};
pub use sys_calls::{
    brk, null_terminated_address_vec, prepare_execve, writev_host_iovecs, ExecveCall,
    HostIoVec, SYS_EXECVE,
};
