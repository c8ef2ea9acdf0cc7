//! Kernel threads.
use vstd::prelude::*;

verus! {

/// `thread` of the 11.00 build.
pub struct Thread {}

impl Thread {
    /// Byte offset of `td_ucred`.
    pub const CRED_OFFSET: usize = 0x130;

    /// Byte offset of `td_retval`, two machine words.
    pub const RET_OFFSET: usize = 0x398;

    /// Address of `td_ucred` in the thread at `td`.
    pub fn cred(td: usize) -> (r: usize)
        requires
            td + Thread::CRED_OFFSET <= usize::MAX,
        ensures
            r == td + Thread::CRED_OFFSET,
    {
        td + Thread::CRED_OFFSET
    }

    /// Address of `td_retval[i]` in the thread at `td`; there are two.
    pub fn ret(td: usize, i: usize) -> (r: usize)
        requires
            i < 2,
            td + Thread::RET_OFFSET + 16 <= usize::MAX,
        ensures
            r == td + Thread::RET_OFFSET + 8 * i,
    {
        td + Thread::RET_OFFSET + 8 * i
    }
}

} // verus!
