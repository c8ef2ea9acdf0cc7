use okf::kernel::Kernel;
use okf::mount::{Filesystem, FsOps, FsStats, Mount, MNT_RDONLY};
use okf::namei::{ComponentName, LOOKUP};
use okf::socket::{InAddr, SockAddrIn, AF_INET, INADDR_ANY};
use okf::thread::Thread;
use okf::vnode::{Vnode, VopRead, VopReadDir, VopUnlock};

#[test]
fn sockaddr_in_new() {
    let a = SockAddrIn::new(InAddr::from(0x0100007f), 0x1234);
    assert_eq!(a.sin_len, 16);
    assert_eq!(a.sin_family, AF_INET as u8);
    assert_eq!(a.sin_port, 0x1234u16.to_be());
    assert_eq!(a.sin_addr.s_addr, 0x0100007f);
    assert_eq!(a.sin_zero, [0; 8]);
    let s = a.as_sockaddr();
    assert_eq!(s.sa_len, 16);
    assert_eq!(&s.sa_data[..6], &[0x12, 0x34, 0x7f, 0, 0, 1]);
    assert_eq!(InAddr::any().s_addr, INADDR_ANY);
}

#[test]
fn field_addresses() {
    assert_eq!(Thread::ret(0x1000, 1), 0x1000 + 0x398 + 8);
    assert_eq!(Thread::cred(0x1000), 0x1130);
    assert_eq!(Mount::entry(0x2000), 0x2028);
    assert_eq!(Mount::flags(0x2000), 0x2080);
    assert_eq!(Mount::stats(0x2000), 0x20A8);
    assert_eq!(FsStats::mounted_from(0x3000), 0x3128);
    assert_eq!(Filesystem::name(0x3000), 0x3004);
    assert_eq!(FsOps::root(0x3000), 0x3018);
    assert_eq!(Vnode::ops(0x4000), 0x4010);
    assert!(Mount::is_read_only(MNT_RDONLY | 0x100));
    assert!(!Mount::is_read_only(0x100));
}

#[test]
fn vop_arguments_carry_descriptors() {
    let k = Kernel::new(0x10_0000);
    let r = VopRead::new(k, 1, 2, 3, 4);
    assert_eq!(r.desc, 0x10_0000 + 0x1531F70);
    assert_eq!((r.vp, r.uio, r.flags, r.cred), (1, 2, 3, 4));
    let d = VopReadDir::new(k, 1, 2, 3, 4, 5, 6);
    assert_eq!(d.desc, 0x10_0000 + 0x1533A00);
    assert_eq!(d.cookies, 6);
    let u = VopUnlock::new(k, 9, 0);
    assert_eq!(u.desc, 0x10_0000 + 0x1534360);
}

#[test]
fn component_name_new() {
    let c = ComponentName::new(LOOKUP, 0x80000, 0x7000, 0x8000, 0x9000, 5);
    assert_eq!(c.name, 0x7000);
    assert_eq!(c.buf, 0x7000);
    assert_eq!(c.len, 5);
    assert_eq!(c.flags, 0);
    assert_eq!(c.consume, 0);
}
