//! The 11.00 kernel build: where it is loaded and where its items are.
use crate::offset::{resolve, MappedKernel, Offset, OffsetOps, StaticMut};
use crate::lock::Mtx;
use crate::malloc::Malloc;
use crate::mount::Mount;
use crate::queue::TailQueue;
use crate::vnode::VnodeOp;
use vstd::prelude::*;

verus! {

/// Address that the `LSTAR` register holds at link time: the entry point of
/// fast system calls, which the kernel installs there.
pub const LSTAR_LINKED: u64 = 0xffffffff822001c0;

/// Base address of the kernel at link time.
pub const BASE_LINKED: u64 = 0xffffffff82200000;

/// Bytes from the base address that cover every item of the catalogue.
pub const KERNEL_SPAN: usize = 0x2400000;

/// The items of the 11.00 build: static values and functions.
#[derive(Debug, Clone, Copy, PartialEq, Eq, Structural)]
pub enum Symbol {
    AcceptMtx,
    MTemp,
    MountList,
    MountListMtx,
    VopReadDesc,
    VopReadDirDesc,
    VopUnlockDesc,
    Fget,
    FgetWrite,
    Fdrop,
    Free,
    KernOpenat,
    KernClose,
    KernFsync,
    KernWritev,
    Malloc,
    MtxLockFlags,
    MtxUnlockFlags,
    Sleep,
    Soaccept,
    Sobind,
    Soclose,
    Socreate,
    Solisten,
    Strlen,
    VfsBusy,
    VfsUnbusy,
    VopRead,
    VopReadDir,
    VopUnlock,
    Vput,
    Panic,
}

/// What an item of the catalogue is.
#[derive(Debug, Clone, Copy, PartialEq, Eq, Structural)]
pub enum SymbolKind {
    /// A static value that may be written.
    StaticMut,
    /// A function.
    Function,
}

/// Byte offset of each item from the kernel's base address.
pub open spec fn symbol_offset(s: Symbol) -> usize {
    match s {
        Symbol::AcceptMtx => 0x221CCF8,
        Symbol::MTemp => 0x15415B0,
        Symbol::MountList => 0x1A6AD60,
        Symbol::MountListMtx => 0x22D0F10,
        Symbol::VopReadDesc => 0x1531F70,
        Symbol::VopReadDirDesc => 0x1533A00,
        Symbol::VopUnlockDesc => 0x1534360,
        Symbol::Fget => 0x419040,
        Symbol::FgetWrite => 0x4191C0,
        Symbol::Fdrop => 0x4161B0,
        Symbol::Free => 0x1A43E0,
        Symbol::KernOpenat => 0xE63B0,
        Symbol::KernClose => 0x416920,
        Symbol::KernFsync => 0xEAD50,
        Symbol::KernWritev => 0xDD340,
        Symbol::Malloc => 0x1A4220,
        Symbol::MtxLockFlags => 0x10E6A0,
        Symbol::MtxUnlockFlags => 0x10E950,
        Symbol::Sleep => 0x365F50,
        Symbol::Soaccept => 0x264AF0,
        Symbol::Sobind => 0x264600,
        Symbol::Soclose => 0x264680,
        Symbol::Socreate => 0x263890,
        Symbol::Solisten => 0x264620,
        Symbol::Strlen => 0x21DC40,
        Symbol::VfsBusy => 0x37BAF0,
        Symbol::VfsUnbusy => 0x37BC60,
        Symbol::VopRead => 0x12E7E0,
        Symbol::VopReadDir => 0x12FB00,
        Symbol::VopUnlock => 0x1300A0,
        Symbol::Vput => 0x37E9B0,
        Symbol::Panic => 0x1987C0,
    }
}

/// The kind of each item: the first seven are static values.
pub open spec fn symbol_kind(s: Symbol) -> SymbolKind {
    match s {
        Symbol::AcceptMtx | Symbol::MTemp | Symbol::MountList | Symbol::MountListMtx
        | Symbol::VopReadDesc | Symbol::VopReadDirDesc | Symbol::VopUnlockDesc => {
            SymbolKind::StaticMut
        },
        _ => SymbolKind::Function,
    }
}

impl Symbol {
    /// Byte offset of the item from the kernel's base address.
    pub fn offset(self) -> (r: usize)
        ensures
            r == symbol_offset(self),
            r < KERNEL_SPAN,
    {
        match self {
            Symbol::AcceptMtx => 0x221CCF8,
            Symbol::MTemp => 0x15415B0,
            Symbol::MountList => 0x1A6AD60,
            Symbol::MountListMtx => 0x22D0F10,
            Symbol::VopReadDesc => 0x1531F70,
            Symbol::VopReadDirDesc => 0x1533A00,
            Symbol::VopUnlockDesc => 0x1534360,
            Symbol::Fget => 0x419040,
            Symbol::FgetWrite => 0x4191C0,
            Symbol::Fdrop => 0x4161B0,
            Symbol::Free => 0x1A43E0,
            Symbol::KernOpenat => 0xE63B0,
            Symbol::KernClose => 0x416920,
            Symbol::KernFsync => 0xEAD50,
            Symbol::KernWritev => 0xDD340,
            Symbol::Malloc => 0x1A4220,
            Symbol::MtxLockFlags => 0x10E6A0,
            Symbol::MtxUnlockFlags => 0x10E950,
            Symbol::Sleep => 0x365F50,
            Symbol::Soaccept => 0x264AF0,
            Symbol::Sobind => 0x264600,
            Symbol::Soclose => 0x264680,
            Symbol::Socreate => 0x263890,
            Symbol::Solisten => 0x264620,
            Symbol::Strlen => 0x21DC40,
            Symbol::VfsBusy => 0x37BAF0,
            Symbol::VfsUnbusy => 0x37BC60,
            Symbol::VopRead => 0x12E7E0,
            Symbol::VopReadDir => 0x12FB00,
            Symbol::VopUnlock => 0x1300A0,
            Symbol::Vput => 0x37E9B0,
            Symbol::Panic => 0x1987C0,
        }
    }

    /// Whether the item is a static value or a function.
    pub fn kind(self) -> (r: SymbolKind)
        ensures
            r == symbol_kind(self),
    {
        match self {
            Symbol::AcceptMtx | Symbol::MTemp | Symbol::MountList | Symbol::MountListMtx
            | Symbol::VopReadDesc | Symbol::VopReadDirDesc | Symbol::VopUnlockDesc => {
                SymbolKind::StaticMut
            },
            _ => SymbolKind::Function,
        }
    }
}

/// The base address that the `LSTAR` register value `lstar` implies: the
/// register holds the fast system call entry, which sits at a fixed distance
/// from the base.
pub open spec fn base_from_lstar(lstar: u64) -> int {
    lstar - LSTAR_LINKED + BASE_LINKED
}

/// The 11.00 kernel as mapped in memory. Cheap to copy: it holds only the
/// base address, and two values built from the same base are interchangeable.
#[derive(Clone, Copy)]
pub struct Kernel {
    base: usize,
}

impl Kernel {
    #[verifier::type_invariant]
    spec fn fits(self) -> bool {
        self.base + KERNEL_SPAN <= usize::MAX
    }

    /// The kernel loaded at `base`.
    pub fn new(base: usize) -> (r: Kernel)
        requires
            base + KERNEL_SPAN <= usize::MAX,
        ensures
            r.spec_base() == base,
    {
        Kernel { base }
    }

    /// The kernel whose fast system call entry `lstar` points to; `None` where
    /// that value cannot be one the kernel installed.
    pub fn from_lstar(lstar: u64) -> (r: Option<Kernel>)
        ensures
            r.is_some() <==> lstar >= LSTAR_LINKED && base_from_lstar(lstar) + KERNEL_SPAN
                <= usize::MAX,
            r.is_some() ==> r.unwrap().spec_base() == base_from_lstar(lstar),
    {
        if lstar < LSTAR_LINKED {
            return None;
        }
        let base: u64 = (lstar - LSTAR_LINKED) + BASE_LINKED;
        if base > (usize::MAX - KERNEL_SPAN) as u64 {
            return None;
        }
        Some(Kernel { base: base as usize })
    }

    /// Resolves `off` against this kernel: the accessor is bound to
    /// `base + offset`.
    pub fn get<O: Offset>(self, off: O) -> (r: O::Ops)
        requires
            self.spec_base() + off.spec_offset() <= usize::MAX,
        ensures
            r.spec_addr() == self.spec_base() + off.spec_offset(),
    {
        resolve(self, off)
    }

    /// Absolute address of the item `s`.
    pub fn symbol(self, s: Symbol) -> (r: usize)
        ensures
            r == self.spec_base() + symbol_offset(s),
    {
        proof {
            use_type_invariant(self);
        }
        self.base + s.offset()
    }

    /// `accept_mtx`, the lock of accept queues.
    pub fn accept_mtx() -> (r: StaticMut<Mtx>)
        ensures
            r.spec_offset() == symbol_offset(Symbol::AcceptMtx),
    {
        StaticMut::new(Symbol::AcceptMtx.offset())
    }

    /// `M_TEMP`, the heap the allocator draws from.
    pub fn m_temp() -> (r: StaticMut<Malloc>)
        ensures
            r.spec_offset() == symbol_offset(Symbol::MTemp),
    {
        StaticMut::new(Symbol::MTemp.offset())
    }

    /// `mountlist`, the list of mounted filesystems.
    pub fn mountlist() -> (r: StaticMut<TailQueue>)
        ensures
            r.spec_offset() == symbol_offset(Symbol::MountList),
    {
        StaticMut::new(Symbol::MountList.offset())
    }

    /// `mountlist_mtx`, the lock of [`Kernel::mountlist`].
    pub fn mountlist_mtx() -> (r: StaticMut<Mtx>)
        ensures
            r.spec_offset() == symbol_offset(Symbol::MountListMtx),
    {
        StaticMut::new(Symbol::MountListMtx.offset())
    }

    /// `vop_read_desc`.
    pub fn vop_read() -> (r: StaticMut<VnodeOp>)
        ensures
            r.spec_offset() == symbol_offset(Symbol::VopReadDesc),
    {
        StaticMut::new(Symbol::VopReadDesc.offset())
    }

    /// `vop_readdir_desc`.
    pub fn vop_readdir() -> (r: StaticMut<VnodeOp>)
        ensures
            r.spec_offset() == symbol_offset(Symbol::VopReadDirDesc),
    {
        StaticMut::new(Symbol::VopReadDirDesc.offset())
    }

    /// `vop_unlock_desc`.
    pub fn vop_unlock() -> (r: StaticMut<VnodeOp>)
        ensures
            r.spec_offset() == symbol_offset(Symbol::VopUnlockDesc),
    {
        StaticMut::new(Symbol::VopUnlockDesc.offset())
    }
}

impl MappedKernel for Kernel {
    closed spec fn spec_base(&self) -> usize {
        self.base
    }

    fn addr(self) -> (r: usize) {
        self.base
    }
}

} // verus!
