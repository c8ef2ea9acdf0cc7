//! Per-CPU data, reached through the `gs` segment.
use vstd::prelude::*;

verus! {

/// `pcpu`: the per-CPU record that `gs` points to.
pub struct Pcpu {}

impl Pcpu {
    /// Offset of `pc_curthread`, the running thread.
    pub const CURTHREAD_OFFSET: usize = 0;

    /// Offset of `pc_cpuid`, a 32-bit CPU number.
    pub const CPUID_OFFSET: usize = 0x34;
}

/// `NOCPU`: the CPU number of no CPU.
pub const NOCPU: u32 = 0xff;

} // verus!
