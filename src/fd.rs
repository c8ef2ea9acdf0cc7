//! File descriptors: opening, and writing a whole buffer.
use crate::errno::{Errno, EINTR, EIO};
use vstd::prelude::*;

verus! {

/// `AT_FDCWD`: paths are relative to the current directory.
pub const AT_FDCWD: i32 = -100;

/// Flags of `open`.
pub const O_RDONLY: i32 = 0x00000000;
pub const O_WRONLY: i32 = 0x00000001;
pub const O_RDWR: i32 = 0x00000002;
pub const O_ACCMODE: i32 = 0x00000003;
pub const O_SHLOCK: i32 = 0x00000010;
pub const O_EXLOCK: i32 = 0x00000020;
pub const O_CREAT: i32 = 0x00000200;
pub const O_TRUNC: i32 = 0x00000400;
pub const O_EXCL: i32 = 0x00000800;
pub const O_EXEC: i32 = 0x00040000;
pub const O_CLOEXEC: i32 = 0x00100000;

/// The outcome of `kern_openat`: on success the new descriptor is in the
/// thread's first return slot, `ret0`.
pub fn openat(status: i32, ret0: usize) -> (r: Result<i32, Errno>)
    requires
        status == 0 ==> ret0 <= i32::MAX,
    ensures
        status == 0 <==> r.is_ok(),
        r.is_ok() ==> r.unwrap() == ret0,
        r.is_err() ==> r->Err_0.code() == status,
{
    match Errno::new(status) {
        Some(e) => Err(e),
        None => Ok(ret0 as i32),
    }
}

/// The outcome of `kern_writev`: on success the number of bytes written is
/// in the thread's first return slot, `ret0`.
pub fn write(status: i32, ret0: usize) -> (r: Result<usize, Errno>)
    ensures
        status == 0 <==> r.is_ok(),
        r.is_ok() ==> r.unwrap() == ret0,
        r.is_err() ==> r->Err_0.code() == status,
{
    match Errno::new(status) {
        Some(e) => Err(e),
        None => Ok(ret0),
    }
}

/// Progress of writing a whole buffer of `len` bytes with repeated writes.
///
/// A write that is interrupted is made again; one that writes nothing ends
/// the whole with `EIO`; any other error ends it with that error.
pub struct WriteAll {
    len: usize,
    written: usize,
}

impl WriteAll {
    /// Total length of the buffer.
    pub closed spec fn spec_len(&self) -> nat {
        self.len as nat
    }

    /// Bytes written so far.
    pub closed spec fn spec_written(&self) -> nat {
        self.written as nat
    }

    pub open spec fn wf(&self) -> bool {
        self.spec_written() <= self.spec_len()
    }

    /// Nothing written yet of a buffer of `len` bytes.
    pub fn new(len: usize) -> (r: WriteAll)
        ensures
            r.wf(),
            r.spec_len() == len,
            r.spec_written() == 0,
    {
        WriteAll { len, written: 0 }
    }

    /// Where the next write starts in the buffer.
    pub fn offset(&self) -> (r: usize)
        ensures
            r == self.spec_written(),
    {
        self.written
    }

    /// `Some(Ok(()))` once the whole buffer is written; `None` while a write
    /// of the rest, from [`WriteAll::offset`], is still to be made.
    pub fn next(&self) -> (r: Option<Result<(), Errno>>)
        requires
            self.wf(),
        ensures
            r.is_none() <==> self.spec_written() < self.spec_len(),
            r.is_some() ==> r == Some(Ok::<(), Errno>(())),
    {
        if self.written < self.len {
            None
        } else {
            Some(Ok(()))
        }
    }

    /// Records the outcome of one write of the rest of the buffer. Returns
    /// the end result once there is one, `None` while writing goes on.
    pub fn record(&mut self, outcome: Result<usize, Errno>) -> (r: Option<Result<(), Errno>>)
        requires
            old(self).wf(),
            old(self).spec_written() < old(self).spec_len(),
            outcome.is_ok() ==> outcome.unwrap() <= old(self).spec_len() - old(self).spec_written(),
        ensures
            final(self).wf(),
            final(self).spec_len() == old(self).spec_len(),
            match outcome {
                Ok(n) => if n == 0 {
                    &&& final(self).spec_written() == old(self).spec_written()
                    &&& r.is_some() && r.unwrap().is_err()
                    &&& r.unwrap()->Err_0.code() == EIO
                } else {
                    &&& final(self).spec_written() == old(self).spec_written() + n
                    &&& r.is_none() <==> final(self).spec_written() < final(self).spec_len()
                    &&& r.is_some() ==> r == Some(Ok::<(), Errno>(()))
                },
                Err(e) => {
                    &&& final(self).spec_written() == old(self).spec_written()
                    &&& e.code() == EINTR ==> r.is_none()
                    &&& e.code() != EINTR ==> r == Some(Err::<(), Errno>(e))
                },
            },
    {
        match outcome {
            Ok(n) => {
                if n == 0 {
                    match Errno::new(EIO) {
                        Some(e) => Some(Err(e)),
                        None => None,
                    }
                } else {
                    self.written = self.written + n;
                    if self.written < self.len {
                        None
                    } else {
                        Some(Ok(()))
                    }
                }
            },
            Err(e) => {
                if e.get() == EINTR {
                    None
                } else {
                    Some(Err(e))
                }
            },
        }
    }
}

} // verus!
