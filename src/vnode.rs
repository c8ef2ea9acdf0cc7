//! Vnodes and the argument records of vnode operations.
use crate::kernel::{symbol_offset, Kernel, Symbol};
use crate::offset::MappedKernel;
use vstd::prelude::*;

verus! {

/// `VREG`: a regular file.
pub const VREG: i32 = 1;

/// `VDIR`: a directory.
pub const VDIR: i32 = 2;

/// `LK_EXCLUSIVE`: an exclusive vnode lock.
pub const LK_EXCLUSIVE: i32 = 0x80000;

/// `LK_SHARED`: a shared vnode lock.
pub const LK_SHARED: i32 = 0x200000;

/// `vnode` of the 11.00 build.
pub struct Vnode {}

impl Vnode {
    /// Byte offset of `v_type`.
    pub const TY_OFFSET: usize = 0;

    /// Byte offset of `v_op`.
    pub const OPS_OFFSET: usize = 0x10;

    /// Address of `v_type` in the vnode at `vp`.
    pub fn ty(vp: usize) -> (r: usize)
        ensures
            r == vp + Vnode::TY_OFFSET,
    {
        vp
    }

    /// Address of `v_op` in the vnode at `vp`.
    pub fn ops(vp: usize) -> (r: usize)
        requires
            vp + Vnode::OPS_OFFSET <= usize::MAX,
        ensures
            r == vp + Vnode::OPS_OFFSET,
    {
        vp + Vnode::OPS_OFFSET
    }
}

/// `vop_vector`: the operations of a vnode.
pub struct VopVector {}

/// `vnodeop_desc`: the description of one vnode operation.
pub struct VnodeOp {}

/// `vop_unlock_args`.
#[derive(Debug, Clone, Copy, PartialEq, Eq, Structural)]
pub struct VopUnlock {
    pub desc: usize,
    pub vp: usize,
    pub flags: i32,
}

impl VopUnlock {
    /// Arguments to unlock the vnode at `vp`.
    pub fn new(k: Kernel, vp: usize, flags: i32) -> (r: VopUnlock)
        ensures
            r == (VopUnlock {
                desc: (k.spec_base() + symbol_offset(Symbol::VopUnlockDesc)) as usize,
                vp,
                flags,
            }),
    {
        VopUnlock { desc: k.symbol(Symbol::VopUnlockDesc), vp, flags }
    }
}

/// `vop_read_args`.
#[derive(Debug, Clone, Copy, PartialEq, Eq, Structural)]
pub struct VopRead {
    pub desc: usize,
    pub vp: usize,
    pub uio: usize,
    pub flags: i32,
    pub cred: usize,
}

impl VopRead {
    /// Arguments to read from the locked vnode at `vp` into `uio`.
    pub fn new(k: Kernel, vp: usize, uio: usize, flags: i32, cred: usize) -> (r: VopRead)
        ensures
            r == (VopRead {
                desc: (k.spec_base() + symbol_offset(Symbol::VopReadDesc)) as usize,
                vp,
                uio,
                flags,
                cred,
            }),
    {
        VopRead { desc: k.symbol(Symbol::VopReadDesc), vp, uio, flags, cred }
    }
}

/// `vop_readdir_args`.
#[derive(Debug, Clone, Copy, PartialEq, Eq, Structural)]
pub struct VopReadDir {
    pub desc: usize,
    pub vp: usize,
    pub uio: usize,
    pub cred: usize,
    pub eof: usize,
    pub ncookies: usize,
    pub cookies: usize,
}

impl VopReadDir {
    /// Arguments to read entries of the locked directory at `vp` into `uio`.
    pub fn new(
        k: Kernel,
        vp: usize,
        uio: usize,
        cred: usize,
        eof: usize,
        ncookies: usize,
        cookies: usize,
    ) -> (r: VopReadDir)
        ensures
            r == (VopReadDir {
                desc: (k.spec_base() + symbol_offset(Symbol::VopReadDirDesc)) as usize,
                vp,
                uio,
                cred,
                eof,
                ncookies,
                cookies,
            }),
    {
        VopReadDir {
            desc: k.symbol(Symbol::VopReadDirDesc),
            vp,
            uio,
            cred,
            eof,
            ncookies,
            cookies,
        }
    }
}

} // verus!
