use okf::errno::{check_status, Errno, EINTR, EIO};
use okf::fd::{openat, WriteAll};
use okf::uio::{IoVec, Uio, UioRw, UioSeg, IOSIZE_MAX, UIO_MAXIOV};

#[test]
fn errno_new_and_get() {
    assert!(Errno::new(0).is_none());
    assert_eq!(Errno::new(22).unwrap().get(), 22);
    assert_eq!(i32::from(Errno::new(-3).unwrap()), -3);
}

#[test]
fn status_normalization() {
    assert!(check_status(0).is_ok());
    assert_eq!(check_status(13).unwrap_err().get(), 13);
    assert_eq!(openat(0, 7), Ok(7));
    assert_eq!(openat(2, 7).unwrap_err().get(), 2);
    assert_eq!(okf::fd::write(0, 42), Ok(42));
    assert_eq!(okf::fd::write(EIO, 42).unwrap_err().get(), EIO);
}

#[test]
fn write_all_partial_writes() {
    let mut w = WriteAll::new(10);
    assert_eq!(w.next(), None);
    assert_eq!(w.record(Ok(4)), None);
    assert_eq!(w.offset(), 4);
    assert_eq!(w.record(Err(Errno::new(EINTR).unwrap())), None);
    assert_eq!(w.offset(), 4);
    assert_eq!(w.record(Ok(6)), Some(Ok(())));
    assert_eq!(w.next(), Some(Ok(())));
}

#[test]
fn write_all_zero_write_is_eio() {
    let mut w = WriteAll::new(3);
    assert_eq!(w.record(Ok(0)).unwrap().unwrap_err().get(), EIO);
}

#[test]
fn write_all_error_ends() {
    let mut w = WriteAll::new(3);
    assert_eq!(w.record(Err(Errno::new(9).unwrap())).unwrap().unwrap_err().get(), 9);
}

#[test]
fn write_all_empty_is_done() {
    assert_eq!(WriteAll::new(0).next(), Some(Ok(())));
}

#[test]
fn uio_write_and_read() {
    let v = IoVec { ptr: 0x5000, len: 64 };
    let u = Uio::write(0x4000, &v, UioSeg::User, 0x9000).unwrap();
    assert_eq!(u.iov, 0x4000);
    assert_eq!(u.len, 1);
    assert_eq!(u.offset(), -1);
    assert_eq!(u.remaining(), 64);
    assert_eq!(u.seg, UioSeg::User);
    assert_eq!(u.op, UioRw::Write);
    assert_eq!(u.td, 0x9000);
    let r = Uio::read(0x4000, &v, 128, 0x9000).unwrap();
    assert_eq!(r.offset(), 128);
    assert_eq!(r.op, UioRw::Read);
    assert_eq!(r.seg, UioSeg::Kernel);
}

#[test]
fn uio_too_large() {
    let v = IoVec { ptr: 0, len: IOSIZE_MAX + 1 };
    assert!(Uio::write(0, &v, UioSeg::Kernel, 0).is_none());
    assert!(Uio::read(0, &v, 0, 0).is_none());
    let ok = IoVec { ptr: 0, len: IOSIZE_MAX };
    assert!(Uio::write(0, &ok, UioSeg::Kernel, 0).is_some());
    assert_eq!(Uio::vec_max(), UIO_MAXIOV);
    assert_eq!(Uio::io_max(), 0x7fffffff);
}
