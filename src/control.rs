//! WALI-specific host functions that involve no system call.

use vstd::prelude::*;

verus! {

/// No environment file is offered to the guest: always 0, "not provided".
pub fn get_init_envfile(_faddr: i32, _fsize: i32) -> (r: i32)
    ensures
        r == 0,
{
    0
}

/// Counts the threads that the guest spawned; the count names them.
pub struct ThreadCounter {
    thread_count: u32,
}

impl View for ThreadCounter {
    type V = nat;

    closed spec fn view(&self) -> nat {
        self.thread_count as nat
    }
}

impl ThreadCounter {
    pub fn new() -> (r: ThreadCounter)
        ensures
            r@ == 0,
    {
        ThreadCounter { thread_count: 0 }
    }

    /// The number of the next thread, counting it; `None`, with nothing
    /// counted, once the count is exhausted.
    pub fn next_thread(&mut self) -> (r: Option<u32>)
        ensures
            old(self)@ < u32::MAX ==> r == Some(old(self)@ as u32) && final(self)@ == old(self)@ + 1,
            old(self)@ >= u32::MAX ==> r is None && final(self)@ == old(self)@,
    {
        if self.thread_count == u32::MAX {
            return None;
        }
        let cur_thread_count = self.thread_count;
        self.thread_count = self.thread_count + 1;
        Some(cur_thread_count)
    }
}

} // verus!
