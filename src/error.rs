use vstd::prelude::*;

verus! {

/// Why a host function could not do its work. Host functions report every one
/// of these to the guest as `-1`.
#[derive(Clone, Copy, Debug, PartialEq, Eq, Structural)]
pub enum WaliError {
    /// A guest offset is negative or lies at or past the end of linear memory, or
    /// a host address lies outside it.
    OutOfRange,
    /// A length or count given by the guest is negative.
    NegativeLength,
    /// An address computation does not fit the host's address space.
    AddressOverflow,
    /// The `mmap` region has not been set up yet (no `mmap` call happened).
    BaseSizeUnset,
    /// The bookkept `mmap` region extends past the end of linear memory.
    RegionOutsideMemory,
    /// There is no argument at the requested index.
    ArgumentIndex,
    /// An argument holds a NUL byte and has no C string form.
    InteriorNul,
    /// A system call received a number of arguments other than its catalog entry declares.
    ArgumentCount,
    /// No NUL entry ends a guest pointer array within linear memory.
    Unterminated,
}

} // verus!
