//! Kernel status codes.
use vstd::prelude::*;

verus! {

/// `EINTR`: the call was interrupted and may be made again.
pub const EINTR: i32 = 4;

/// `EIO`: an input/output error.
pub const EIO: i32 = 5;

/// A nonzero status code returned by a kernel function.
#[derive(Debug, Clone, Copy, PartialEq, Eq, Structural)]
pub struct Errno {
    code: i32,
}

impl Errno {
    #[verifier::type_invariant]
    spec fn nonzero(self) -> bool {
        self.code != 0
    }

    /// The status code held.
    pub closed spec fn code(self) -> i32 {
        self.code
    }

    /// Returns `None` if `v` is zero, which is the kernel's status for success.
    pub fn new(v: i32) -> (r: Option<Errno>)
        ensures
            v == 0 ==> r.is_none(),
            v != 0 ==> r.is_some() && r.unwrap().code() == v,
    {
        if v == 0 {
            None
        } else {
            Some(Errno { code: v })
        }
    }

    /// The status code, never zero.
    pub fn get(self) -> (r: i32)
        ensures
            r == self.code(),
            r != 0,
    {
        proof {
            use_type_invariant(self);
        }
        self.code
    }
}

impl From<Errno> for i32 {
    fn from(value: Errno) -> (r: i32) {
        value.get()
    }
}

impl vstd::std_specs::convert::FromSpecImpl<Errno> for i32 {
    open spec fn obeys_from_spec() -> bool {
        true
    }

    open spec fn from_spec(v: Errno) -> i32 {
        v.code()
    }
}

/// Turns the status returned by a kernel function into a result: zero is
/// success, anything else is the error.
pub fn check_status(status: i32) -> (r: Result<(), Errno>)
    ensures
        status == 0 <==> r.is_ok(),
        r.is_err() ==> r->Err_0.code() == status,
{
    match Errno::new(status) {
        Some(e) => Err(e),
        None => Ok(()),
    }
}

} // verus!
