//! Kernel locks.
use vstd::prelude::*;

verus! {

/// `lock_object`: the common head of every kernel lock, `0x18` bytes.
pub struct LockObject {}

impl LockObject {
    /// Size in bytes.
    pub const SIZE: usize = 0x18;
}

/// `mtx`: a [`LockObject`] followed by the lock's state word.
pub struct Mtx {}

impl Mtx {
    /// Size in bytes.
    pub const SIZE: usize = 0x20;

    /// Address of the [`LockObject`] of the mutex at `m`: it is its first
    /// field.
    pub fn lock_mut(m: usize) -> (r: usize)
        ensures
            r == m,
    {
        m
    }
}

/// Options passed when the guard of a mutex locks and unlocks it.
pub const MTX_GUARD_OPTS: i32 = 0;

/// Line number passed with the empty file name as the guard's debug tag.
pub const MTX_GUARD_LINE: i32 = 0;

} // verus!
