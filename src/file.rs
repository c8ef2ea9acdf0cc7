//! Kernel file objects and their shared reference count.
use vstd::prelude::*;

verus! {

/// `file`: its reference count `f_count` is a 32-bit atomic at `0x28`.
pub struct File {}

impl File {
    /// Byte offset of `f_count`.
    pub const REFCNT_OFFSET: usize = 0x28;

    /// Address of `f_count` in the file at `fp`.
    pub fn refcnt(fp: usize) -> (r: usize)
        requires
            fp + File::REFCNT_OFFSET <= usize::MAX,
        ensures
            r == fp + File::REFCNT_OFFSET,
    {
        fp + File::REFCNT_OFFSET
    }
}

/// Whether the holder whose decrement found the count at `prev` is the one
/// that releases the file: the one that took it from one to zero.
pub open spec fn releases(prev: nat) -> bool {
    prev == 1
}

/// The shared count of references to a kernel file, as each decrement sees it.
pub struct RefCount {
    count: u32,
}

impl RefCount {
    /// References still held.
    pub closed spec fn spec_count(&self) -> nat {
        self.count as nat
    }

    /// A count of `n` references.
    pub fn new(n: u32) -> (r: RefCount)
        ensures
            r.spec_count() == n,
    {
        RefCount { count: n }
    }

    /// References still held.
    pub fn count(&self) -> (r: u32)
        ensures
            r == self.spec_count(),
    {
        self.count
    }

    /// One holder lets go of its reference. Returns whether it must now make
    /// the kernel's release call, which is so for exactly the last one.
    pub fn release(&mut self) -> (r: bool)
        requires
            old(self).spec_count() >= 1,
        ensures
            final(self).spec_count() == old(self).spec_count() - 1,
            r == releases(old(self).spec_count()),
    {
        let prev = self.count;
        self.count = prev - 1;
        is_last_reference(prev)
    }
}

/// Whether a holder whose atomic decrement returned `prev` must release the
/// file; a count already at zero is a fault the caller aborts on.
pub fn is_last_reference(prev: u32) -> (r: bool)
    requires
        prev >= 1,
    ensures
        r == releases(prev as nat),
{
    prev == 1
}

} // verus!

verus! {

/// Of `n` holders that each let go of one reference, in whatever order their
/// atomic decrements land, exactly one is told to release the file: the one
/// whose decrement is the `n`-th, which found the count at one.
pub proof fn lemma_released_once(n: nat)
    requires
        n >= 1,
    ensures
        forall|i: int| 0 <= i < n ==> (#[trigger] releases((n - i) as nat) <==> i == n - 1),
        Seq::new(n, |i: int| releases((n - i) as nat)).filter(|b: bool| b).len() == 1,
    decreases n,
{
    let s = Seq::new(n, |i: int| releases((n - i) as nat));
    if n == 1 {
        assert(s =~= seq![true]);
        reveal_with_fuel(Seq::filter, 2);
        assert(s.drop_last() =~= Seq::<bool>::empty());
    } else {
        lemma_released_once((n - 1) as nat);
        let t = Seq::new((n - 1) as nat, |i: int| releases((n - 1 - i) as nat));
        // The first decrement of n finds n > 1; the rest are those of n - 1.
        assert(s =~= seq![false] + t);
        Seq::filter_distributes_over_add(seq![false], t, |b: bool| b);
        reveal_with_fuel(Seq::filter, 2);
        assert(seq![false].drop_last() =~= Seq::<bool>::empty());
        assert(seq![false].filter(|b: bool| b) =~= Seq::<bool>::empty());
    }
}

} // verus!
