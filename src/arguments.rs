//! The guest's command-line arguments and the host functions that hand them out.

use vstd::prelude::*;

use std::sync::atomic::AtomicU8;

use vstd::utf8::encode_utf8;

use crate::address::{MemoryLayout, WasmAddress};
use crate::error::WaliError;
use crate::guest_memory::write_into_memory;

verus! {

/// The bytes of an argument: its UTF-8 encoding.
pub open spec fn arg_bytes(arg: Seq<char>) -> Seq<u8> {
    encode_utf8(arg)
}

/// An argument has a C string form when none of its bytes is NUL.
pub open spec fn has_c_form(arg: Seq<char>) -> bool {
    forall|i: int| 0 <= i < arg_bytes(arg).len() ==> arg_bytes(arg)[i] != 0
}

/// The C string form of an argument: its bytes and a NUL terminator.
pub open spec fn c_string_of(arg: Seq<char>) -> Seq<u8> {
    arg_bytes(arg).push(0)
}

/// The guest's arguments, without the command name.
pub struct Arguments {
    arguments: Vec<String>,
}

impl View for Arguments {
    type V = Seq<Seq<char>>;

    closed spec fn view(&self) -> Seq<Seq<char>> {
        self.arguments@.map_values(|s: String| s@)
    }
}

impl Arguments {
    /// The guest arguments of a command line `module_and_args`: all but its
    /// first element, the command name.
    pub fn from_command_line(module_and_args: &Vec<String>) -> (r: Arguments)
        ensures
            r@ == if module_and_args@.len() == 0 {
                Seq::<Seq<char>>::empty()
            } else {
                module_and_args@.drop_first().map_values(|s: String| s@)
            },
    {
        let mut arguments: Vec<String> = Vec::new();
        let mut i: usize = 1;
        while i < module_and_args.len()
            invariant
                1 <= i,
                i <= module_and_args@.len() || i == 1,
                arguments@.len() == i - 1,
                forall|j: int| 0 <= j < arguments@.len() ==> arguments@[j]@ == module_and_args@[j + 1]@,
            decreases module_and_args@.len() - i,
        {
            arguments.push(module_and_args[i].clone());
            i += 1;
        }
        let r = Arguments { arguments };
        proof {
            if module_and_args@.len() == 0 {
                assert(r.arguments@.len() == 0);
                assert(r@ =~= Seq::<Seq<char>>::empty());
            } else {
                assert(r@ =~= module_and_args@.drop_first().map_values(|s: String| s@));
            }
        }
        r
    }

    /// The number of arguments.
    pub fn arg_len(&self) -> (r: usize)
        ensures
            r == self@.len(),
    {
        self.arguments.len()
    }

    /// The argument at `index` in the form in which it is written into guest
    /// memory: a C string, with its NUL terminator. Fails with `ArgumentIndex`
    /// where there is no such argument and with `InteriorNul` where it holds a
    /// NUL byte.
    pub fn arg_as_c_string(&self, index: usize) -> (r: Result<Vec<u8>, WaliError>)
        ensures
            r is Ok <==> index < self@.len() && has_c_form(self@[index as int]),
            r matches Ok(c) ==> c@ == c_string_of(self@[index as int]),
            r matches Err(e) ==> if index >= self@.len() {
                e == WaliError::ArgumentIndex
            } else {
                e == WaliError::InteriorNul
            },
    {
        if index >= self.arguments.len() {
            return Err(WaliError::ArgumentIndex);
        }
        let bytes = self.arguments[index].as_str().as_bytes();
        proof {
            assert(self@[index as int] == self.arguments@[index as int]@);
        }
        let mut c_string: Vec<u8> = Vec::new();
        let mut i: usize = 0;
        while i < bytes.len()
            invariant
                index < self@.len(),
                i <= bytes@.len(),
                bytes@ == arg_bytes(self@[index as int]),
                c_string@ == bytes@.take(i as int),
                forall|j: int| 0 <= j < i ==> bytes@[j] != 0,
            decreases bytes@.len() - i,
        {
            if bytes[i] == 0 {
                return Err(WaliError::InteriorNul);
            }
            c_string.push(bytes[i]);
            i += 1;
            proof {
                assert(c_string@ =~= bytes@.take(i as int));
            }
        }
        c_string.push(0);
        proof {
            assert(bytes@.take(i as int) =~= bytes@);
        }
        Ok(c_string)
    }

    /// The byte length of the argument at `index`, without the NUL terminator
    /// of its C string form.
    pub fn arg_byte_len(&self, index: usize) -> (r: Result<usize, WaliError>)
        ensures
            r is Ok <==> index < self@.len() && has_c_form(self@[index as int]),
            r matches Ok(n) ==> n == arg_bytes(self@[index as int]).len(),
            r matches Err(e) ==> if index >= self@.len() {
                e == WaliError::ArgumentIndex
            } else {
                e == WaliError::InteriorNul
            },
    {
        let c_string = self.arg_as_c_string(index)?;
        Ok(c_string.len() - 1)
    }
}

/// The number of arguments, or -1 where it does not fit the guest's `i32`.
pub fn cl_get_argc(arguments: &Arguments) -> (r: i32)
    ensures
        r == if arguments@.len() <= i32::MAX {
            arguments@.len() as i32
        } else {
            -1i32
        },
{
    let arg_c = arguments.arg_len();
    if arg_c > i32::MAX as usize {
        -1
    } else {
        arg_c as i32
    }
}

/// The byte length of argument `arg_idx` without its terminator, or -1 where
/// there is no such argument, it has no C string form, or its length does not
/// fit an `i32`.
pub fn cl_get_argv_len(arguments: &Arguments, arg_idx: i32) -> (r: i32)
    ensures
        r == if 0 <= arg_idx < arguments@.len() && has_c_form(arguments@[arg_idx as int])
            && arg_bytes(arguments@[arg_idx as int]).len() <= i32::MAX {
            arg_bytes(arguments@[arg_idx as int]).len() as i32
        } else {
            -1i32
        },
{
    if arg_idx < 0 {
        return -1;
    }
    match arguments.arg_byte_len(arg_idx as usize) {
        Ok(arg_len) => if arg_len > i32::MAX as usize {
            -1
        } else {
            arg_len as i32
        },
        Err(_) => -1,
    }
}

/// Why argument `index` cannot be copied to guest offset `address`, if it cannot.
pub open spec fn copy_arg_error(arguments: Seq<Seq<char>>, memory: MemoryLayout, address: int, index: int) -> Option<WaliError> {
    if !(0 <= address < memory.size) {
        Some(WaliError::OutOfRange)
    } else if !(0 <= index < arguments.len()) {
        Some(WaliError::ArgumentIndex)
    } else if !has_c_form(arguments[index]) {
        Some(WaliError::InteriorNul)
    } else if address + c_string_of(arguments[index]).len() > memory.size {
        Some(WaliError::OutOfRange)
    } else {
        None
    }
}

/// Writes argument `arg_idx` as a C string into guest memory from guest offset
/// `addr_offset` on, and returns the number of bytes written.
pub fn copy_arg_into_module(
    arguments: &Arguments,
    memory: &[AtomicU8],
    layout: &MemoryLayout,
    addr_offset: i32,
    arg_idx: usize,
) -> (r: Result<usize, WaliError>)
    requires
        layout.wf(),
        memory@.len() == layout.size,
    ensures
        r is Err <==> copy_arg_error(arguments@, *layout, addr_offset as int, arg_idx as int) is Some,
        r matches Err(e) ==> copy_arg_error(arguments@, *layout, addr_offset as int, arg_idx as int) == Some(e),
        r matches Ok(n) ==> n == c_string_of(arguments@[arg_idx as int]).len(),
{
    let address = WasmAddress::try_new(addr_offset as i64, layout)?;
    let c_string = arguments.arg_as_c_string(arg_idx)?;
    if c_string.len() > layout.size - address.offset() {
        return Err(WaliError::OutOfRange);
    }
    Ok(write_into_memory(memory, &address, c_string.as_slice()))
}

/// The host function behind `__cl_copy_argv`: copies argument `arg_idx` to
/// guest offset `argv_addr` and returns the number of bytes written, or -1
/// where it cannot be copied or that number does not fit an `i32`.
pub fn cl_copy_argv(
    arguments: &Arguments,
    memory: &[AtomicU8],
    layout: &MemoryLayout,
    argv_addr: i32,
    arg_idx: i32,
) -> (r: i32)
    requires
        layout.wf(),
        memory@.len() == layout.size,
    ensures
        r == if arg_idx >= 0 && copy_arg_error(arguments@, *layout, argv_addr as int, arg_idx as int) is None
            && c_string_of(arguments@[arg_idx as int]).len() <= i32::MAX {
            c_string_of(arguments@[arg_idx as int]).len() as i32
        } else {
            -1i32
        },
{
    if arg_idx < 0 {
        return -1;
    }
    match copy_arg_into_module(arguments, memory, layout, argv_addr, arg_idx as usize) {
        Ok(n_written) => if n_written > i32::MAX as usize {
            -1
        } else {
            n_written as i32
        },
        Err(_) => -1,
    }
}

} // verus!
