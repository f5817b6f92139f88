//! The catalog of forwarded system calls and the translation of their arguments.
//!
//! Each entry names a Linux system call and declares, per argument, whether
//! the guest passes a pointer into linear memory (translated to a host address
//! before the call) or a scalar (passed on as it is).

use vstd::prelude::*;

use crate::address::{host_address_of, MemoryLayout, WasmAddress};
use crate::error::WaliError;

verus! {

/// How a system call argument crosses from guest to host.
#[derive(Clone, Copy, Debug, PartialEq, Eq, Structural)]
pub enum ArgKind {
    /// A 32-bit scalar, sign-extended to the host's system call word.
    Scalar,
    /// A 64-bit scalar.
    Wide,
    /// A 32-bit guest pointer, translated to a host address.
    Pointer,
}

/// The system calls that guests reach through the plain forwarder.
#[derive(Clone, Copy, Debug, PartialEq, Eq, Structural)]
pub enum Syscall {
    Read,
    Write,
    Close,
    Fstat,
    Mprotect,
    RtSigprocmask,
    Ioctl,
    Nanosleep,
    Socket,
    Connect,
    Accept,
    Sendto,
    Shutdown,
    Bind,
    Listen,
    Setsockopt,
    Kill,
    Uname,
    Flock,
    Getcwd,
    Setpgid,
    Fstatfs,
    Gettid,
    Futex,
    Getdents64,
    SetTidAddress,
    ClockGettime,
    ClockNanosleep,
    Utimensat,
    Lseek,
    Open,
    Stat,
    Lstat,
    Access,
    Pipe,
    Dup,
    Dup2,
    Alarm,
    Fork,
    Fcntl,
    Dup3,
}

/// The Linux (x86_64) number of a system call.
pub open spec fn syscall_number(s: Syscall) -> i64 {
    match s {
        Syscall::Read => 0,
        Syscall::Write => 1,
        Syscall::Close => 3,
        Syscall::Fstat => 5,
        Syscall::Mprotect => 10,
        Syscall::RtSigprocmask => 14,
        Syscall::Ioctl => 16,
        Syscall::Nanosleep => 35,
        Syscall::Socket => 41,
        Syscall::Connect => 42,
        Syscall::Accept => 43,
        Syscall::Sendto => 44,
        Syscall::Shutdown => 48,
        Syscall::Bind => 49,
        Syscall::Listen => 50,
        Syscall::Setsockopt => 54,
        Syscall::Kill => 62,
        Syscall::Uname => 63,
        Syscall::Flock => 73,
        Syscall::Getcwd => 79,
        Syscall::Setpgid => 109,
        Syscall::Fstatfs => 138,
        Syscall::Gettid => 186,
        Syscall::Futex => 202,
        Syscall::Getdents64 => 217,
        Syscall::SetTidAddress => 218,
        Syscall::ClockGettime => 228,
        Syscall::ClockNanosleep => 230,
        Syscall::Utimensat => 280,
        Syscall::Lseek => 8,
        Syscall::Open => 2,
        Syscall::Stat => 4,
        Syscall::Lstat => 6,
        Syscall::Access => 21,
        Syscall::Pipe => 22,
        Syscall::Dup => 32,
        Syscall::Dup2 => 33,
        Syscall::Alarm => 37,
        Syscall::Fork => 57,
        Syscall::Fcntl => 72,
        Syscall::Dup3 => 292,
    }
}

/// The kinds of a system call's arguments, in order.
pub open spec fn syscall_arg_kinds(s: Syscall) -> Seq<ArgKind> {
    match s {
        Syscall::Read => seq![ArgKind::Scalar, ArgKind::Pointer, ArgKind::Scalar],
        Syscall::Write => seq![ArgKind::Scalar, ArgKind::Pointer, ArgKind::Scalar],
        Syscall::Close => seq![ArgKind::Scalar],
        Syscall::Fstat => seq![ArgKind::Scalar, ArgKind::Pointer],
        Syscall::Mprotect => seq![ArgKind::Pointer, ArgKind::Scalar, ArgKind::Scalar],
        Syscall::RtSigprocmask => seq![ArgKind::Scalar, ArgKind::Pointer, ArgKind::Pointer, ArgKind::Scalar],
        Syscall::Ioctl => seq![ArgKind::Scalar, ArgKind::Scalar, ArgKind::Pointer],
        Syscall::Nanosleep => seq![ArgKind::Pointer, ArgKind::Pointer],
        Syscall::Socket => seq![ArgKind::Scalar, ArgKind::Scalar, ArgKind::Scalar],
        Syscall::Connect => seq![ArgKind::Scalar, ArgKind::Pointer, ArgKind::Scalar],
        Syscall::Accept => seq![ArgKind::Scalar, ArgKind::Pointer, ArgKind::Pointer],
        Syscall::Sendto => seq![ArgKind::Scalar, ArgKind::Pointer, ArgKind::Scalar, ArgKind::Scalar, ArgKind::Pointer, ArgKind::Scalar],
        Syscall::Shutdown => seq![ArgKind::Scalar, ArgKind::Scalar],
        Syscall::Bind => seq![ArgKind::Scalar, ArgKind::Pointer, ArgKind::Scalar],
        Syscall::Listen => seq![ArgKind::Scalar, ArgKind::Scalar],
        Syscall::Setsockopt => seq![ArgKind::Scalar, ArgKind::Scalar, ArgKind::Scalar, ArgKind::Pointer, ArgKind::Scalar],
        Syscall::Kill => seq![ArgKind::Scalar, ArgKind::Scalar],
        Syscall::Uname => seq![ArgKind::Pointer],
        Syscall::Flock => seq![ArgKind::Scalar, ArgKind::Scalar],
        Syscall::Getcwd => seq![ArgKind::Pointer, ArgKind::Scalar],
        Syscall::Setpgid => seq![ArgKind::Scalar, ArgKind::Scalar],
        Syscall::Fstatfs => seq![ArgKind::Scalar, ArgKind::Pointer],
        Syscall::Gettid => seq![],
        Syscall::Futex => seq![ArgKind::Pointer, ArgKind::Scalar, ArgKind::Scalar, ArgKind::Pointer, ArgKind::Pointer, ArgKind::Scalar],
        Syscall::Getdents64 => seq![ArgKind::Scalar, ArgKind::Pointer, ArgKind::Scalar],
        Syscall::SetTidAddress => seq![ArgKind::Pointer],
        Syscall::ClockGettime => seq![ArgKind::Scalar, ArgKind::Pointer],
        Syscall::ClockNanosleep => seq![ArgKind::Scalar, ArgKind::Scalar, ArgKind::Pointer, ArgKind::Pointer],
        Syscall::Utimensat => seq![ArgKind::Scalar, ArgKind::Pointer, ArgKind::Pointer, ArgKind::Scalar],
        Syscall::Lseek => seq![ArgKind::Scalar, ArgKind::Wide, ArgKind::Scalar],
        Syscall::Open => seq![ArgKind::Pointer, ArgKind::Scalar, ArgKind::Scalar],
        Syscall::Stat => seq![ArgKind::Pointer, ArgKind::Pointer],
        Syscall::Lstat => seq![ArgKind::Pointer, ArgKind::Pointer],
        Syscall::Access => seq![ArgKind::Pointer, ArgKind::Scalar],
        Syscall::Pipe => seq![ArgKind::Pointer],
        Syscall::Dup => seq![ArgKind::Scalar],
        Syscall::Dup2 => seq![ArgKind::Scalar, ArgKind::Scalar],
        Syscall::Alarm => seq![ArgKind::Scalar],
        Syscall::Fork => seq![],
        Syscall::Fcntl => seq![ArgKind::Scalar, ArgKind::Scalar, ArgKind::Scalar],
        Syscall::Dup3 => seq![ArgKind::Scalar, ArgKind::Scalar, ArgKind::Scalar],
    }
}

/// The name under which a system call is imported from module `wali`.
pub open spec fn syscall_import_name(s: Syscall) -> Seq<char> {
    match s {
        Syscall::Read => "SYS_read"@,
        Syscall::Write => "SYS_write"@,
        Syscall::Close => "SYS_close"@,
        Syscall::Fstat => "SYS_fstat"@,
        Syscall::Mprotect => "SYS_mprotect"@,
        Syscall::RtSigprocmask => "SYS_rt_sigprocmask"@,
        Syscall::Ioctl => "SYS_ioctl"@,
        Syscall::Nanosleep => "SYS_nanosleep"@,
        Syscall::Socket => "SYS_socket"@,
        Syscall::Connect => "SYS_connect"@,
        Syscall::Accept => "SYS_accept"@,
        Syscall::Sendto => "SYS_sendto"@,
        Syscall::Shutdown => "SYS_shutdown"@,
        Syscall::Bind => "SYS_bind"@,
        Syscall::Listen => "SYS_listen"@,
        Syscall::Setsockopt => "SYS_setsockopt"@,
        Syscall::Kill => "SYS_kill"@,
        Syscall::Uname => "SYS_uname"@,
        Syscall::Flock => "SYS_flock"@,
        Syscall::Getcwd => "SYS_getcwd"@,
        Syscall::Setpgid => "SYS_setpgid"@,
        Syscall::Fstatfs => "SYS_fstatfs"@,
        Syscall::Gettid => "SYS_gettid"@,
        Syscall::Futex => "SYS_futex"@,
        Syscall::Getdents64 => "SYS_getdents64"@,
        Syscall::SetTidAddress => "SYS_set_tid_address"@,
        Syscall::ClockGettime => "SYS_clock_gettime"@,
        Syscall::ClockNanosleep => "SYS_clock_nanosleep"@,
        Syscall::Utimensat => "SYS_utimensat"@,
        Syscall::Lseek => "SYS_lseek"@,
        Syscall::Open => "SYS_open"@,
        Syscall::Stat => "SYS_stat"@,
        Syscall::Lstat => "SYS_lstat"@,
        Syscall::Access => "SYS_access"@,
        Syscall::Pipe => "SYS_pipe"@,
        Syscall::Dup => "SYS_dup"@,
        Syscall::Dup2 => "SYS_dup2"@,
        Syscall::Alarm => "SYS_alarm"@,
        Syscall::Fork => "SYS_fork"@,
        Syscall::Fcntl => "SYS_fcntl"@,
        Syscall::Dup3 => "SYS_dup3"@,
    }
}

/// System calls whose numbers exist on x86_64 only.
pub open spec fn syscall_x86_64_only(s: Syscall) -> bool {
    match s {
        Syscall::Open
        | Syscall::Stat
        | Syscall::Lstat
        | Syscall::Access
        | Syscall::Pipe
        | Syscall::Dup
        | Syscall::Dup2
        | Syscall::Alarm
        | Syscall::Fork
        | Syscall::Fcntl
        | Syscall::Dup3 => true,
        _ => false,
    }
}

/// Every forwarded system call, each once.
pub open spec fn syscall_catalog() -> Seq<Syscall> {
    seq![
        Syscall::Read,
        Syscall::Write,
        Syscall::Close,
        Syscall::Fstat,
        Syscall::Mprotect,
        Syscall::RtSigprocmask,
        Syscall::Ioctl,
        Syscall::Nanosleep,
        Syscall::Socket,
        Syscall::Connect,
        Syscall::Accept,
        Syscall::Sendto,
        Syscall::Shutdown,
        Syscall::Bind,
        Syscall::Listen,
        Syscall::Setsockopt,
        Syscall::Kill,
        Syscall::Uname,
        Syscall::Flock,
        Syscall::Getcwd,
        Syscall::Setpgid,
        Syscall::Fstatfs,
        Syscall::Gettid,
        Syscall::Futex,
        Syscall::Getdents64,
        Syscall::SetTidAddress,
        Syscall::ClockGettime,
        Syscall::ClockNanosleep,
        Syscall::Utimensat,
        Syscall::Lseek,
        Syscall::Open,
        Syscall::Stat,
        Syscall::Lstat,
        Syscall::Access,
        Syscall::Pipe,
        Syscall::Dup,
        Syscall::Dup2,
        Syscall::Alarm,
        Syscall::Fork,
        Syscall::Fcntl,
        Syscall::Dup3,
    ]
}

impl Syscall {
    pub fn number(&self) -> (r: i64)
        ensures
            r == syscall_number(*self),
    {
        match self {
            Syscall::Read => 0,
            Syscall::Write => 1,
            Syscall::Close => 3,
            Syscall::Fstat => 5,
            Syscall::Mprotect => 10,
            Syscall::RtSigprocmask => 14,
            Syscall::Ioctl => 16,
            Syscall::Nanosleep => 35,
            Syscall::Socket => 41,
            Syscall::Connect => 42,
            Syscall::Accept => 43,
            Syscall::Sendto => 44,
            Syscall::Shutdown => 48,
            Syscall::Bind => 49,
            Syscall::Listen => 50,
            Syscall::Setsockopt => 54,
            Syscall::Kill => 62,
            Syscall::Uname => 63,
            Syscall::Flock => 73,
            Syscall::Getcwd => 79,
            Syscall::Setpgid => 109,
            Syscall::Fstatfs => 138,
            Syscall::Gettid => 186,
            Syscall::Futex => 202,
            Syscall::Getdents64 => 217,
            Syscall::SetTidAddress => 218,
            Syscall::ClockGettime => 228,
            Syscall::ClockNanosleep => 230,
            Syscall::Utimensat => 280,
            Syscall::Lseek => 8,
            Syscall::Open => 2,
            Syscall::Stat => 4,
            Syscall::Lstat => 6,
            Syscall::Access => 21,
            Syscall::Pipe => 22,
            Syscall::Dup => 32,
            Syscall::Dup2 => 33,
            Syscall::Alarm => 37,
            Syscall::Fork => 57,
            Syscall::Fcntl => 72,
            Syscall::Dup3 => 292,
        }
    }

    pub fn arg_kinds(&self) -> (r: Vec<ArgKind>)
        ensures
            r@ == syscall_arg_kinds(*self),
    {
        let r = match self {
            Syscall::Read => vec![ArgKind::Scalar, ArgKind::Pointer, ArgKind::Scalar],
            Syscall::Write => vec![ArgKind::Scalar, ArgKind::Pointer, ArgKind::Scalar],
            Syscall::Close => vec![ArgKind::Scalar],
            Syscall::Fstat => vec![ArgKind::Scalar, ArgKind::Pointer],
            Syscall::Mprotect => vec![ArgKind::Pointer, ArgKind::Scalar, ArgKind::Scalar],
            Syscall::RtSigprocmask => vec![ArgKind::Scalar, ArgKind::Pointer, ArgKind::Pointer, ArgKind::Scalar],
            Syscall::Ioctl => vec![ArgKind::Scalar, ArgKind::Scalar, ArgKind::Pointer],
            Syscall::Nanosleep => vec![ArgKind::Pointer, ArgKind::Pointer],
            Syscall::Socket => vec![ArgKind::Scalar, ArgKind::Scalar, ArgKind::Scalar],
            Syscall::Connect => vec![ArgKind::Scalar, ArgKind::Pointer, ArgKind::Scalar],
            Syscall::Accept => vec![ArgKind::Scalar, ArgKind::Pointer, ArgKind::Pointer],
            Syscall::Sendto => vec![ArgKind::Scalar, ArgKind::Pointer, ArgKind::Scalar, ArgKind::Scalar, ArgKind::Pointer, ArgKind::Scalar],
            Syscall::Shutdown => vec![ArgKind::Scalar, ArgKind::Scalar],
            Syscall::Bind => vec![ArgKind::Scalar, ArgKind::Pointer, ArgKind::Scalar],
            Syscall::Listen => vec![ArgKind::Scalar, ArgKind::Scalar],
            Syscall::Setsockopt => vec![ArgKind::Scalar, ArgKind::Scalar, ArgKind::Scalar, ArgKind::Pointer, ArgKind::Scalar],
            Syscall::Kill => vec![ArgKind::Scalar, ArgKind::Scalar],
            Syscall::Uname => vec![ArgKind::Pointer],
            Syscall::Flock => vec![ArgKind::Scalar, ArgKind::Scalar],
            Syscall::Getcwd => vec![ArgKind::Pointer, ArgKind::Scalar],
            Syscall::Setpgid => vec![ArgKind::Scalar, ArgKind::Scalar],
            Syscall::Fstatfs => vec![ArgKind::Scalar, ArgKind::Pointer],
            Syscall::Gettid => vec![],
            Syscall::Futex => vec![ArgKind::Pointer, ArgKind::Scalar, ArgKind::Scalar, ArgKind::Pointer, ArgKind::Pointer, ArgKind::Scalar],
            Syscall::Getdents64 => vec![ArgKind::Scalar, ArgKind::Pointer, ArgKind::Scalar],
            Syscall::SetTidAddress => vec![ArgKind::Pointer],
            Syscall::ClockGettime => vec![ArgKind::Scalar, ArgKind::Pointer],
            Syscall::ClockNanosleep => vec![ArgKind::Scalar, ArgKind::Scalar, ArgKind::Pointer, ArgKind::Pointer],
            Syscall::Utimensat => vec![ArgKind::Scalar, ArgKind::Pointer, ArgKind::Pointer, ArgKind::Scalar],
            Syscall::Lseek => vec![ArgKind::Scalar, ArgKind::Wide, ArgKind::Scalar],
            Syscall::Open => vec![ArgKind::Pointer, ArgKind::Scalar, ArgKind::Scalar],
            Syscall::Stat => vec![ArgKind::Pointer, ArgKind::Pointer],
            Syscall::Lstat => vec![ArgKind::Pointer, ArgKind::Pointer],
            Syscall::Access => vec![ArgKind::Pointer, ArgKind::Scalar],
            Syscall::Pipe => vec![ArgKind::Pointer],
            Syscall::Dup => vec![ArgKind::Scalar],
            Syscall::Dup2 => vec![ArgKind::Scalar, ArgKind::Scalar],
            Syscall::Alarm => vec![ArgKind::Scalar],
            Syscall::Fork => vec![],
            Syscall::Fcntl => vec![ArgKind::Scalar, ArgKind::Scalar, ArgKind::Scalar],
            Syscall::Dup3 => vec![ArgKind::Scalar, ArgKind::Scalar, ArgKind::Scalar],
        };
        proof {
            assert(r@ =~= syscall_arg_kinds(*self));
        }
        r
    }

    pub fn import_name(&self) -> (r: &'static str)
        ensures
            r@ == syscall_import_name(*self),
    {
        match self {
            Syscall::Read => "SYS_read",
            Syscall::Write => "SYS_write",
            Syscall::Close => "SYS_close",
            Syscall::Fstat => "SYS_fstat",
            Syscall::Mprotect => "SYS_mprotect",
            Syscall::RtSigprocmask => "SYS_rt_sigprocmask",
            Syscall::Ioctl => "SYS_ioctl",
            Syscall::Nanosleep => "SYS_nanosleep",
            Syscall::Socket => "SYS_socket",
            Syscall::Connect => "SYS_connect",
            Syscall::Accept => "SYS_accept",
            Syscall::Sendto => "SYS_sendto",
            Syscall::Shutdown => "SYS_shutdown",
            Syscall::Bind => "SYS_bind",
            Syscall::Listen => "SYS_listen",
            Syscall::Setsockopt => "SYS_setsockopt",
            Syscall::Kill => "SYS_kill",
            Syscall::Uname => "SYS_uname",
            Syscall::Flock => "SYS_flock",
            Syscall::Getcwd => "SYS_getcwd",
            Syscall::Setpgid => "SYS_setpgid",
            Syscall::Fstatfs => "SYS_fstatfs",
            Syscall::Gettid => "SYS_gettid",
            Syscall::Futex => "SYS_futex",
            Syscall::Getdents64 => "SYS_getdents64",
            Syscall::SetTidAddress => "SYS_set_tid_address",
            Syscall::ClockGettime => "SYS_clock_gettime",
            Syscall::ClockNanosleep => "SYS_clock_nanosleep",
            Syscall::Utimensat => "SYS_utimensat",
            Syscall::Lseek => "SYS_lseek",
            Syscall::Open => "SYS_open",
            Syscall::Stat => "SYS_stat",
            Syscall::Lstat => "SYS_lstat",
            Syscall::Access => "SYS_access",
            Syscall::Pipe => "SYS_pipe",
            Syscall::Dup => "SYS_dup",
            Syscall::Dup2 => "SYS_dup2",
            Syscall::Alarm => "SYS_alarm",
            Syscall::Fork => "SYS_fork",
            Syscall::Fcntl => "SYS_fcntl",
            Syscall::Dup3 => "SYS_dup3",
        }
    }

    /// Whether the system call exists on x86_64 only; other hosts leave it out.
    pub fn x86_64_only(&self) -> (r: bool)
        ensures
            r == syscall_x86_64_only(*self),
    {
        match self {
            Syscall::Open
        | Syscall::Stat
        | Syscall::Lstat
        | Syscall::Access
        | Syscall::Pipe
        | Syscall::Dup
        | Syscall::Dup2
        | Syscall::Alarm
        | Syscall::Fork
        | Syscall::Fcntl
        | Syscall::Dup3 => true,
            _ => false,
        }
    }

    /// Every forwarded system call, each once.
    pub fn catalog() -> (r: Vec<Syscall>)
        ensures
            r@ == syscall_catalog(),
    {
        let r = vec![
            Syscall::Read,
            Syscall::Write,
            Syscall::Close,
            Syscall::Fstat,
            Syscall::Mprotect,
            Syscall::RtSigprocmask,
            Syscall::Ioctl,
            Syscall::Nanosleep,
            Syscall::Socket,
            Syscall::Connect,
            Syscall::Accept,
            Syscall::Sendto,
            Syscall::Shutdown,
            Syscall::Bind,
            Syscall::Listen,
            Syscall::Setsockopt,
            Syscall::Kill,
            Syscall::Uname,
            Syscall::Flock,
            Syscall::Getcwd,
            Syscall::Setpgid,
            Syscall::Fstatfs,
            Syscall::Gettid,
            Syscall::Futex,
            Syscall::Getdents64,
            Syscall::SetTidAddress,
            Syscall::ClockGettime,
            Syscall::ClockNanosleep,
            Syscall::Utimensat,
            Syscall::Lseek,
            Syscall::Open,
            Syscall::Stat,
            Syscall::Lstat,
            Syscall::Access,
            Syscall::Pipe,
            Syscall::Dup,
            Syscall::Dup2,
            Syscall::Alarm,
            Syscall::Fork,
            Syscall::Fcntl,
            Syscall::Dup3,
        ];
        proof {
            assert(r@ =~= syscall_catalog());
        }
        r
    }
}

/// The catalog lists every forwarded system call.
pub proof fn lemma_catalog_lists_every_syscall(s: Syscall)
    ensures
        syscall_catalog().contains(s),
{
    match s {
            Syscall::Read => assert(syscall_catalog()[0] == s),
            Syscall::Write => assert(syscall_catalog()[1] == s),
            Syscall::Close => assert(syscall_catalog()[2] == s),
            Syscall::Fstat => assert(syscall_catalog()[3] == s),
            Syscall::Mprotect => assert(syscall_catalog()[4] == s),
            Syscall::RtSigprocmask => assert(syscall_catalog()[5] == s),
            Syscall::Ioctl => assert(syscall_catalog()[6] == s),
            Syscall::Nanosleep => assert(syscall_catalog()[7] == s),
            Syscall::Socket => assert(syscall_catalog()[8] == s),
            Syscall::Connect => assert(syscall_catalog()[9] == s),
            Syscall::Accept => assert(syscall_catalog()[10] == s),
            Syscall::Sendto => assert(syscall_catalog()[11] == s),
            Syscall::Shutdown => assert(syscall_catalog()[12] == s),
            Syscall::Bind => assert(syscall_catalog()[13] == s),
            Syscall::Listen => assert(syscall_catalog()[14] == s),
            Syscall::Setsockopt => assert(syscall_catalog()[15] == s),
            Syscall::Kill => assert(syscall_catalog()[16] == s),
            Syscall::Uname => assert(syscall_catalog()[17] == s),
            Syscall::Flock => assert(syscall_catalog()[18] == s),
            Syscall::Getcwd => assert(syscall_catalog()[19] == s),
            Syscall::Setpgid => assert(syscall_catalog()[20] == s),
            Syscall::Fstatfs => assert(syscall_catalog()[21] == s),
            Syscall::Gettid => assert(syscall_catalog()[22] == s),
            Syscall::Futex => assert(syscall_catalog()[23] == s),
            Syscall::Getdents64 => assert(syscall_catalog()[24] == s),
            Syscall::SetTidAddress => assert(syscall_catalog()[25] == s),
            Syscall::ClockGettime => assert(syscall_catalog()[26] == s),
            Syscall::ClockNanosleep => assert(syscall_catalog()[27] == s),
            Syscall::Utimensat => assert(syscall_catalog()[28] == s),
            Syscall::Lseek => assert(syscall_catalog()[29] == s),
            Syscall::Open => assert(syscall_catalog()[30] == s),
            Syscall::Stat => assert(syscall_catalog()[31] == s),
            Syscall::Lstat => assert(syscall_catalog()[32] == s),
            Syscall::Access => assert(syscall_catalog()[33] == s),
            Syscall::Pipe => assert(syscall_catalog()[34] == s),
            Syscall::Dup => assert(syscall_catalog()[35] == s),
            Syscall::Dup2 => assert(syscall_catalog()[36] == s),
            Syscall::Alarm => assert(syscall_catalog()[37] == s),
            Syscall::Fork => assert(syscall_catalog()[38] == s),
            Syscall::Fcntl => assert(syscall_catalog()[39] == s),
            Syscall::Dup3 => assert(syscall_catalog()[40] == s),
    }
}

/// The host word for guest argument `arg` of kind `kind`: the host address it
/// names for a pointer, the argument itself for a scalar.
pub open spec fn host_word(memory: MemoryLayout, kind: ArgKind, arg: int) -> int {
    if kind == ArgKind::Pointer {
        host_address_of(memory, arg)
    } else {
        arg
    }
}

/// A pointer argument lies in linear memory; a scalar argument always passes.
pub open spec fn arg_acceptable(memory: MemoryLayout, kind: ArgKind, arg: int) -> bool {
    kind == ArgKind::Pointer ==> 0 <= arg < memory.size
}

/// Guest system call `syscall` accepts arguments `args`: their number matches
/// its catalog entry and every pointer argument lies in memory.
pub open spec fn syscall_accepts(syscall: Syscall, memory: MemoryLayout, args: Seq<i64>) -> bool {
    &&& args.len() == syscall_arg_kinds(syscall).len()
    &&& forall|i: int| 0 <= i < args.len() ==> arg_acceptable(memory, syscall_arg_kinds(syscall)[i], args[i] as int)
}

/// The forwarder refuses a call in which any declared pointer argument is
/// negative or not below the memory size, so no host call is made from it.
pub proof fn lemma_forwarder_rejects_bad_pointers(syscall: Syscall, memory: MemoryLayout, args: Seq<i64>, i: int)
    requires
        0 <= i < args.len(),
        i < syscall_arg_kinds(syscall).len(),
        syscall_arg_kinds(syscall)[i] == ArgKind::Pointer,
        args[i] < 0 || args[i] >= memory.size,
    ensures
        !syscall_accepts(syscall, memory, args),
{
}

/// Translates guest arguments `args` of kinds `kinds` into host words. Fails
/// with `OutOfRange` where any pointer argument is negative or not below the
/// memory size; scalars pass unchanged.
pub fn translate_args(kinds: &Vec<ArgKind>, args: &Vec<i64>, memory: &MemoryLayout) -> (r: Result<Vec<i64>, WaliError>)
    requires
        memory.wf(),
        kinds@.len() == args@.len(),
    ensures
        r is Ok <==> forall|i: int| 0 <= i < args@.len() ==> arg_acceptable(*memory, kinds@[i], args@[i] as int),
        r matches Err(e) ==> e == WaliError::OutOfRange,
        r matches Ok(words) ==> {
            &&& words@.len() == args@.len()
            &&& forall|i: int| 0 <= i < args@.len() ==> words@[i] == host_word(*memory, kinds@[i], args@[i] as int)
        },
{
    let mut words: Vec<i64> = Vec::new();
    let mut i: usize = 0;
    while i < args.len()
        invariant
            memory.wf(),
            kinds@.len() == args@.len(),
            i <= args@.len(),
            words@.len() == i,
            forall|j: int| 0 <= j < i ==> arg_acceptable(*memory, kinds@[j], args@[j] as int),
            forall|j: int| 0 <= j < i ==> words@[j] == host_word(*memory, kinds@[j], args@[j] as int),
        decreases args@.len() - i,
    {
        let arg = args[i];
        let word = match kinds[i] {
            ArgKind::Pointer => {
                let address = WasmAddress::try_new(arg, memory)?;
                address.to_host_address(memory).as_usize() as i64
            },
            _ => arg,
        };
        words.push(word);
        i += 1;
    }
    Ok(words)
}

/// A host system call to make: its number and its argument words.
#[derive(Debug)]
pub struct ForwardedCall {
    pub number: i64,
    pub args: Vec<i64>,
}

/// Prepares the host call for guest system call `syscall` with arguments
/// `args`. Fails with `ArgumentCount` where `args` does not match the catalog
/// entry, and with `OutOfRange` where a pointer argument is not in memory.
pub fn prepare_syscall(syscall: Syscall, args: &Vec<i64>, memory: &MemoryLayout) -> (r: Result<ForwardedCall, WaliError>)
    requires
        memory.wf(),
    ensures
        r is Ok <==> syscall_accepts(syscall, *memory, args@),
        r matches Err(e) ==> if args@.len() != syscall_arg_kinds(syscall).len() {
            e == WaliError::ArgumentCount
        } else {
            e == WaliError::OutOfRange
        },
        r matches Ok(c) ==> {
            &&& c.number == syscall_number(syscall)
            &&& c.args@.len() == args@.len()
            &&& forall|i: int| 0 <= i < args@.len() ==> c.args@[i] == host_word(*memory, syscall_arg_kinds(syscall)[i], args@[i] as int)
        },
{
    let kinds = syscall.arg_kinds();
    if kinds.len() != args.len() {
        return Err(WaliError::ArgumentCount);
    }
    let words = translate_args(&kinds, args, memory)?;
    Ok(ForwardedCall { number: syscall.number(), args: words })
}

} // verus!
