use okf::kernel::{Kernel, Symbol, SymbolKind, KERNEL_SPAN};
use okf::offset::{Function, MappedKernel, Static, StaticMut};

const BASE: usize = 0xffff_ffff_8220_0000;

#[test]
fn resolve_symbols_against_base() {
    let k = Kernel::new(BASE);
    assert_eq!(k.symbol(Symbol::MTemp), BASE + 0x15415B0);
    assert_eq!(k.symbol(Symbol::MountList), BASE + 0x1A6AD60);
    assert_eq!(k.symbol(Symbol::KernOpenat), BASE + 0xE63B0);
    assert_eq!(k.symbol(Symbol::Panic), BASE + 0x1987C0);
    assert_eq!(k.symbol(Symbol::Vput), BASE + 0x37E9B0);
}

#[test]
fn resolve_descriptors() {
    let k = Kernel::new(0x1000);
    assert_eq!(k.get(Kernel::m_temp()).addr(), 0x1000 + 0x15415B0);
    assert_eq!(k.get(Kernel::mountlist_mtx()).addr(), 0x1000 + 0x22D0F10);
    assert_eq!(k.get(Static::<u32>::new(0x10)).addr(), 0x1010);
    assert_eq!(k.get(StaticMut::<u64>::new(0x20)).addr(), 0x1020);
    assert_eq!(k.get(Function::<u8>::new(0x30)).addr(), 0x1030);
    assert_eq!(k.addr(), 0x1000);
}

#[test]
fn symbol_kinds_and_span() {
    assert_eq!(Symbol::AcceptMtx.kind(), SymbolKind::StaticMut);
    assert_eq!(Symbol::VopUnlockDesc.kind(), SymbolKind::StaticMut);
    assert_eq!(Symbol::Fget.kind(), SymbolKind::Function);
    assert!(Symbol::MountListMtx.offset() < KERNEL_SPAN);
}

#[test]
fn base_from_lstar_register() {
    let k = Kernel::from_lstar(0xffff_ffff_8a20_01c0).unwrap();
    assert_eq!(k.addr(), 0xffff_ffff_8a20_0000);
    assert!(Kernel::from_lstar(0x1c0).is_none());
    assert!(Kernel::from_lstar(u64::MAX).is_none());
}

#[test]
fn kernels_from_same_base_are_interchangeable() {
    let a = Kernel::new(BASE);
    let b = Kernel::new(BASE);
    assert_eq!(a.symbol(Symbol::Sobind), b.symbol(Symbol::Sobind));
}
