//! The system calls that the plain forwarder cannot carry: `writev` and
//! `execve`, whose arguments point to guest arrays of guest pointers, and `brk`.

use vstd::prelude::*;

use crate::address::{host_address_of, MemoryLayout, WasmAddress};
use crate::error::WaliError;
use crate::guest_memory::GuestIoVec;

verus! {

/// The Linux (x86_64) number of `execve`.
pub const SYS_EXECVE: i64 = 59;

/// `brk` cannot extend the guest's heap: it always reports 0, and the guest's
/// allocator falls back to `mmap`.
pub fn brk(_a1: i32) -> (r: i64)
    ensures
        r == 0,
{
    0
}

/// An `iovec` as the host's `writev` takes it.
#[derive(Clone, Copy, Debug, PartialEq, Eq, Structural)]
pub struct HostIoVec {
    pub base: usize,
    pub len: usize,
}

/// The host `iovec`s for guest `iovec`s `iovecs`, in order: each base becomes
/// the host address it names, and each length is passed on as the host reads
/// it (a negative one becomes a length that the kernel refuses). Fails with
/// `OutOfRange` where a base is not in memory.
pub fn writev_host_iovecs(iovecs: &Vec<GuestIoVec>, memory: &MemoryLayout) -> (r: Result<Vec<HostIoVec>, WaliError>)
    requires
        memory.wf(),
    ensures
        r is Ok <==> forall|i: int| 0 <= i < iovecs@.len() ==> 0 <= #[trigger] iovecs@[i].base < memory.size,
        r matches Err(e) ==> e == WaliError::OutOfRange,
        r matches Ok(host) ==> {
            &&& host@.len() == iovecs@.len()
            &&& forall|i: int| 0 <= i < iovecs@.len() ==> {
                &&& host@[i].base == host_address_of(*memory, iovecs@[i].base as int)
                &&& host@[i].len == iovecs@[i].len as usize
            }
        },
{
    let mut host: Vec<HostIoVec> = Vec::new();
    let mut i: usize = 0;
    while i < iovecs.len()
        invariant
            memory.wf(),
            i <= iovecs@.len(),
            host@.len() == i,
            forall|j: int| 0 <= j < i ==> 0 <= #[trigger] iovecs@[j].base < memory.size,
            forall|j: int| 0 <= j < i ==> {
                &&& host@[j].base == host_address_of(*memory, iovecs@[j].base as int)
                &&& host@[j].len == iovecs@[j].len as usize
            },
        decreases iovecs@.len() - i,
    {
        let iov = iovecs[i];
        let base = WasmAddress::try_new(iov.base as i64, memory)?;
        host.push(HostIoVec { base: base.to_host_address(memory).as_usize(), len: iov.len as usize });
        i += 1;
    }
    Ok(host)
}

/// The host addresses of the guest pointers `entries`, followed by a null
/// entry. Fails with `OutOfRange` where an entry is not in memory.
pub fn null_terminated_address_vec(entries: &Vec<i32>, memory: &MemoryLayout) -> (r: Result<Vec<usize>, WaliError>)
    requires
        memory.wf(),
    ensures
        r is Ok <==> forall|i: int| 0 <= i < entries@.len() ==> 0 <= #[trigger] entries@[i] < memory.size,
        r matches Err(e) ==> e == WaliError::OutOfRange,
        r matches Ok(v) ==> {
            &&& v@.len() == entries@.len() + 1
            &&& forall|i: int| 0 <= i < entries@.len() ==> v@[i] == host_address_of(*memory, entries@[i] as int)
            &&& v@[entries@.len() as int] == 0
        },
{
    let mut addresses: Vec<usize> = Vec::new();
    let mut i: usize = 0;
    while i < entries.len()
        invariant
            memory.wf(),
            i <= entries@.len(),
            addresses@.len() == i,
            forall|j: int| 0 <= j < i ==> 0 <= #[trigger] entries@[j] < memory.size,
            forall|j: int| 0 <= j < i ==> addresses@[j] == host_address_of(*memory, entries@[j] as int),
        decreases entries@.len() - i,
    {
        let address = WasmAddress::try_new(entries[i] as i64, memory)?;
        addresses.push(address.to_host_address(memory).as_usize());
        i += 1;
    }
    addresses.push(0);
    Ok(addresses)
}

/// A host `execve` call to make: the path's host address and two
/// null-terminated arrays of host addresses.
#[derive(Debug)]
pub struct ExecveCall {
    pub path: usize,
    pub argv: Vec<usize>,
    pub envp: Vec<usize>,
}

/// Prepares a guest `execve(path, argv, _)` whose argument array holds the
/// guest pointers `argv_entries` before its null entry. The environment is not
/// passed on: the new program gets an empty one.
pub fn prepare_execve(memory: &MemoryLayout, path: i32, argv_entries: &Vec<i32>) -> (r: Result<ExecveCall, WaliError>)
    requires
        memory.wf(),
    ensures
        r is Ok <==> 0 <= path < memory.size && forall|i: int|
            0 <= i < argv_entries@.len() ==> 0 <= #[trigger] argv_entries@[i] < memory.size,
        r matches Err(e) ==> e == WaliError::OutOfRange,
        r matches Ok(c) ==> {
            &&& c.path == host_address_of(*memory, path as int)
            &&& c.argv@.len() == argv_entries@.len() + 1
            &&& forall|i: int| 0 <= i < argv_entries@.len() ==> c.argv@[i] == host_address_of(*memory, argv_entries@[i] as int)
            &&& c.argv@[argv_entries@.len() as int] == 0
            &&& c.envp@ == seq![0usize]
        },
{
    let argv = null_terminated_address_vec(argv_entries, memory)?;
    let path = WasmAddress::try_new(path as i64, memory)?;
    let envp = vec![0usize];
    proof {
        assert(envp@ =~= seq![0usize]);
    }
    Ok(ExecveCall { path: path.to_host_address(memory).as_usize(), argv, envp })
}

} // verus!
