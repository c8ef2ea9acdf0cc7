//! Typed, version-portable access to the internal state and functions of a
//! running kernel whose layout differs between builds.
//!
//! Everything here is plain arithmetic on addresses, status codes and bytes:
//! the raw reads, writes and foreign calls that use these results are left to
//! the caller.
use vstd::prelude::*;

pub mod malloc;
pub mod errno;
pub mod fd;
pub mod file;
pub mod image;
pub mod kernel;
pub mod lock;
pub mod message;
pub mod mount;
pub mod namei;
pub mod notification;
pub mod offset;
pub mod pcpu;
pub mod queue;
pub mod socket;
pub mod thread;
pub mod uio;
pub mod vnode;

verus! {

} // verus!
