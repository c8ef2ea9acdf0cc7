//! Scatter/gather I/O descriptors.
use vstd::prelude::*;

verus! {

/// `UIO_MAXIOV`: most `iovec`s in one request.
pub const UIO_MAXIOV: usize = 1024;

/// `IOSIZE_MAX`: most bytes in one request.
pub const IOSIZE_MAX: usize = 0x7fffffff;

/// `uio_seg`: which address space a buffer is in.
#[derive(Debug, Clone, Copy, PartialEq, Eq, Structural)]
pub enum UioSeg {
    /// `UIO_USERSPACE`
    User,
    /// `UIO_SYSSPACE`
    Kernel,
}

/// `uio_rw`: the direction of a transfer.
#[derive(Debug, Clone, Copy, PartialEq, Eq, Structural)]
pub enum UioRw {
    /// `UIO_READ`
    Read,
    /// `UIO_WRITE`
    Write,
}

/// `iovec`: one buffer, by address and length.
#[derive(Debug, Clone, Copy, PartialEq, Eq, Structural)]
pub struct IoVec {
    pub ptr: usize,
    pub len: usize,
}

/// `uio`: a transfer over one [`IoVec`], with the addresses of the `iovec`
/// and of the thread it is for.
#[derive(Debug, Clone, Copy, PartialEq, Eq, Structural)]
pub struct Uio {
    /// `uio_iov`
    pub iov: usize,
    /// `uio_iovcnt`
    pub len: i32,
    /// `uio_offset`; `-1` for "the file's own position".
    pub off: isize,
    /// `uio_resid`: bytes left to transfer.
    pub res: isize,
    /// `uio_segflg`
    pub seg: UioSeg,
    /// `uio_rw`
    pub op: UioRw,
    /// `uio_td`
    pub td: usize,
}

impl Uio {
    /// A write of the buffer `vec`, whose `iovec` is at `iov`, from the
    /// address space `seg`, at the file's own position; `None` when the buffer
    /// is longer than [`IOSIZE_MAX`].
    pub fn write(iov: usize, vec: &IoVec, seg: UioSeg, td: usize) -> (r: Option<Uio>)
        ensures
            r.is_some() <==> vec.len <= IOSIZE_MAX,
            r.is_some() ==> r.unwrap() == (Uio {
                iov,
                len: 1,
                off: -1isize,
                res: vec.len as isize,
                seg,
                op: UioRw::Write,
                td,
            }),
    {
        let res = vec.len;
        if res > IOSIZE_MAX {
            return None;
        }
        Some(Uio { iov, len: 1, off: -1, res: res as isize, seg, op: UioRw::Write, td })
    }

    /// A read into the kernel buffer `vec`, whose `iovec` is at `iov`, from
    /// position `off`; `None` when the buffer is longer than [`IOSIZE_MAX`].
    pub fn read(iov: usize, vec: &IoVec, off: usize, td: usize) -> (r: Option<Uio>)
        requires
            off <= isize::MAX,
        ensures
            r.is_some() <==> vec.len <= IOSIZE_MAX,
            r.is_some() ==> r.unwrap() == (Uio {
                iov,
                len: 1,
                off: off as isize,
                res: vec.len as isize,
                seg: UioSeg::Kernel,
                op: UioRw::Read,
                td,
            }),
    {
        let res = vec.len;
        if res > IOSIZE_MAX {
            return None;
        }
        Some(Uio { iov, len: 1, off: off as isize, res: res as isize, seg: UioSeg::Kernel, op: UioRw::Read, td })
    }

    /// `UIO_MAXIOV`.
    pub fn vec_max() -> (r: usize)
        ensures
            r == UIO_MAXIOV,
    {
        UIO_MAXIOV
    }

    /// `IOSIZE_MAX`.
    pub fn io_max() -> (r: usize)
        ensures
            r == IOSIZE_MAX,
    {
        IOSIZE_MAX
    }

    /// `uio_offset`.
    pub fn offset(&self) -> (r: isize)
        ensures
            r == self.off,
    {
        self.off
    }

    /// `uio_resid`.
    pub fn remaining(&self) -> (r: isize)
        ensures
            r == self.res,
    {
        self.res
    }
}

} // verus!
