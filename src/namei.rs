//! Path name components for lookups.
use vstd::prelude::*;

verus! {

/// `LOOKUP`: the `cn_nameiop` of a plain lookup.
pub const LOOKUP: u64 = 0;

/// `componentname`: one component of a path to look up.
#[derive(Debug, Clone, Copy, PartialEq, Eq, Structural)]
pub struct ComponentName {
    pub op: u64,
    pub flags: u64,
    pub td: usize,
    pub cred: usize,
    pub lk: i32,
    pub buf: usize,
    pub name: usize,
    pub len: isize,
    pub consume: isize,
}

impl ComponentName {
    /// The component held in the zero-terminated string at `buf`, of length
    /// `len`, looked up by the thread `td` with its credentials `cred`.
    pub fn new(op: u64, lk: i32, buf: usize, td: usize, cred: usize, len: usize) -> (r:
        ComponentName)
        requires
            len <= isize::MAX,
        ensures
            r == (ComponentName {
                op,
                flags: 0,
                td,
                cred,
                lk,
                buf,
                name: buf,
                len: len as isize,
                consume: 0,
            }),
    {
        ComponentName { op, flags: 0, td, cred, lk, buf, name: buf, len: len as isize, consume: 0 }
    }
}

} // verus!
