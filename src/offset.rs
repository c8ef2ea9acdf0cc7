//! Offsets of kernel items and the accessors they resolve to.
//!
//! A descriptor carries a fixed byte offset from the kernel's base address and,
//! through its type, the kind of accessor it resolves to: a read-only view, a
//! read/write view, or a function entry point. Resolving is pure address
//! arithmetic, `base + offset`; nothing here checks that the offset is right.
use core::marker::PhantomData;
use vstd::prelude::*;

verus! {

/// Offset of something in the kernel.
pub trait Offset: Copy {
    /// The accessor this offset resolves to.
    type Ops: OffsetOps;

    /// The byte offset from the kernel's base address.
    spec fn spec_offset(&self) -> usize;

    fn get(self) -> (r: usize)
        ensures
            r == self.spec_offset(),
    ;
}

/// An accessor bound to an absolute address in the kernel.
pub trait OffsetOps: Copy {
    /// The absolute address the accessor operates on.
    spec fn spec_addr(&self) -> usize;

    fn new(addr: usize) -> (r: Self)
        ensures
            r.spec_addr() == addr,
    ;
}

/// A mapped kernel: something that knows where the kernel is loaded.
pub trait MappedKernel: Copy {
    /// The base address of the kernel.
    spec fn spec_base(&self) -> usize;

    fn addr(self) -> (r: usize)
        ensures
            r == self.spec_base(),
    ;
}

/// Resolves `off` against the kernel mapped at `k`: the accessor is bound to
/// `base + offset`.
pub fn resolve<K: MappedKernel, O: Offset>(k: K, off: O) -> (r: O::Ops)
    requires
        k.spec_base() + off.spec_offset() <= usize::MAX,
    ensures
        r.spec_addr() == k.spec_base() + off.spec_offset(),
{
    let addr = k.addr() + off.get();
    <O::Ops as OffsetOps>::new(addr)
}

/// Offset of an immutable static value in the kernel.
///
/// Only the value at the offset is immutable: if it is a pointer, the data it
/// points to may still change.
pub struct Static<T> {
    off: usize,
    phantom: PhantomData<T>,
}

impl<T> Static<T> {
    pub fn new(off: usize) -> (r: Self)
        ensures
            r.spec_offset() == off,
    {
        Static { off, phantom: PhantomData }
    }
}

impl<T> Clone for Static<T> {
    fn clone(&self) -> (r: Self)
        ensures
            r == *self,
    {
        *self
    }
}

impl<T> Copy for Static<T> {

}

impl<T> Offset for Static<T> {
    type Ops = ImmutableOps<T>;

    closed spec fn spec_offset(&self) -> usize {
        self.off
    }

    fn get(self) -> (r: usize) {
        self.off
    }
}

/// Read-only view of a static value; see [`Static`].
pub struct ImmutableOps<T> {
    addr: usize,
    phantom: PhantomData<T>,
}

impl<T> ImmutableOps<T> {
    /// The address of the value.
    pub fn addr(self) -> (r: usize)
        ensures
            r == self.spec_addr(),
    {
        self.addr
    }
}

impl<T> Clone for ImmutableOps<T> {
    fn clone(&self) -> (r: Self)
        ensures
            r == *self,
    {
        *self
    }
}

impl<T> Copy for ImmutableOps<T> {

}

impl<T> OffsetOps for ImmutableOps<T> {
    closed spec fn spec_addr(&self) -> usize {
        self.addr
    }

    fn new(addr: usize) -> (r: Self) {
        ImmutableOps { addr, phantom: PhantomData }
    }
}

/// Offset of a mutable static value in the kernel.
///
/// Reading or writing it may need a kernel lock held; that is the caller's
/// business.
pub struct StaticMut<T> {
    off: usize,
    phantom: PhantomData<T>,
}

impl<T> StaticMut<T> {
    pub fn new(off: usize) -> (r: Self)
        ensures
            r.spec_offset() == off,
    {
        StaticMut { off, phantom: PhantomData }
    }
}

impl<T> Clone for StaticMut<T> {
    fn clone(&self) -> (r: Self)
        ensures
            r == *self,
    {
        *self
    }
}

impl<T> Copy for StaticMut<T> {

}

impl<T> Offset for StaticMut<T> {
    type Ops = MutableOps<T>;

    closed spec fn spec_offset(&self) -> usize {
        self.off
    }

    fn get(self) -> (r: usize) {
        self.off
    }
}

/// Read/write view of a static value; see [`StaticMut`].
pub struct MutableOps<T> {
    addr: usize,
    phantom: PhantomData<T>,
}

impl<T> MutableOps<T> {
    /// The address of the value.
    pub fn addr(self) -> (r: usize)
        ensures
            r == self.spec_addr(),
    {
        self.addr
    }
}

impl<T> Clone for MutableOps<T> {
    fn clone(&self) -> (r: Self)
        ensures
            r == *self,
    {
        *self
    }
}

impl<T> Copy for MutableOps<T> {

}

impl<T> OffsetOps for MutableOps<T> {
    closed spec fn spec_addr(&self) -> usize {
        self.addr
    }

    fn new(addr: usize) -> (r: Self) {
        MutableOps { addr, phantom: PhantomData }
    }
}

/// Offset of a function in the kernel; `T` names its signature.
pub struct Function<T> {
    off: usize,
    phantom: PhantomData<T>,
}

impl<T> Function<T> {
    pub fn new(off: usize) -> (r: Self)
        ensures
            r.spec_offset() == off,
    {
        Function { off, phantom: PhantomData }
    }
}

impl<T> Clone for Function<T> {
    fn clone(&self) -> (r: Self)
        ensures
            r == *self,
    {
        *self
    }
}

impl<T> Copy for Function<T> {

}

impl<T> Offset for Function<T> {
    type Ops = FunctionOps<T>;

    closed spec fn spec_offset(&self) -> usize {
        self.off
    }

    fn get(self) -> (r: usize) {
        self.off
    }
}

/// Entry point of a kernel function; see [`Function`].
pub struct FunctionOps<T> {
    addr: usize,
    phantom: PhantomData<T>,
}

impl<T> FunctionOps<T> {
    /// The address of the function's first instruction.
    pub fn addr(self) -> (r: usize)
        ensures
            r == self.spec_addr(),
    {
        self.addr
    }
}

impl<T> Clone for FunctionOps<T> {
    fn clone(&self) -> (r: Self)
        ensures
            r == *self,
    {
        *self
    }
}

impl<T> Copy for FunctionOps<T> {

}

impl<T> OffsetOps for FunctionOps<T> {
    closed spec fn spec_addr(&self) -> usize {
        self.addr
    }

    fn new(addr: usize) -> (r: Self) {
        FunctionOps { addr, phantom: PhantomData }
    }
}

} // verus!
