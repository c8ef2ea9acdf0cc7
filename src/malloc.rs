//! The arithmetic of an allocator that forwards to the kernel's heap.
//!
//! The kernel's `malloc` returns 8-byte aligned memory. To serve a larger
//! alignment the request is padded, the returned address is shifted forward to
//! the next aligned one, and the shift is stored in the word just past the
//! caller's region so that `free` can find the start of the block again.
use vstd::arithmetic::div_mod::{lemma_fundamental_div_mod, lemma_mod_mod, lemma_mod_multiples_basic};
use vstd::prelude::*;

verus! {

/// Alignment of every address returned by the kernel's `malloc`.
pub const KERNEL_ALIGN: usize = 8;

/// Bytes taken by the stored shift: one machine word.
pub const WORD_SIZE: usize = 8;

/// `M_WAITOK`: the kernel may sleep until memory is available.
pub const M_WAITOK: i32 = 0x0002;

/// `M_ZERO`: the kernel fills the memory with zeros.
pub const M_ZERO: i32 = 0x0100;

/// `a` is a power of two.
pub open spec fn is_pow2(a: nat) -> bool
    decreases a,
{
    if a <= 1 {
        a == 1
    } else {
        a % 2 == 0 && is_pow2(a / 2)
    }
}

/// Bytes asked of the kernel for `size` bytes at alignment `align`: the size,
/// the padding an alignment above [`KERNEL_ALIGN`] needs, and the stored shift.
pub open spec fn request_size(size: nat, align: nat) -> nat {
    if align <= KERNEL_ALIGN {
        (size + WORD_SIZE) as nat
    } else {
        (size + (align - KERNEL_ALIGN) + WORD_SIZE) as nat
    }
}

/// How far `mem` must move forward to reach a multiple of `align`.
pub open spec fn shift_for(mem: nat, align: nat) -> nat
    recommends
        align > 0,
{
    if mem % align == 0 {
        0
    } else {
        (align - mem % align) as nat
    }
}

/// A power of two is either a divisor of [`KERNEL_ALIGN`] or a multiple of it.
pub proof fn lemma_pow2_vs_kernel_align(a: nat)
    requires
        is_pow2(a),
    ensures
        a > 0,
        a <= KERNEL_ALIGN ==> (a == 1 || a == 2 || a == 4 || a == 8),
        a > KERNEL_ALIGN ==> a % KERNEL_ALIGN as nat == 0,
    decreases a,
{
    if a > 1 {
        lemma_pow2_vs_kernel_align(a / 2);
    }
}

/// What the kernel is asked for.
pub struct MallocRequest {
    /// Bytes to allocate.
    pub size: usize,
    /// Flags to pass to `malloc`.
    pub flags: i32,
}

/// Where the caller's region starts inside a block from the kernel.
pub struct Placement {
    /// The aligned address handed to the caller.
    pub ptr: usize,
    /// Distance from the start of the block to `ptr`; stored at `ptr + size`.
    pub shift: usize,
}

/// An allocator that serves every request from the kernel's `M_TEMP` heap.
pub struct Allocator {}

impl Allocator {
    pub fn new() -> (r: Allocator) {
        Allocator {  }
    }

    /// The request to make of the kernel for `size` bytes aligned to `align`,
    /// zero-filled when `zeroed`; `None` when the padded size does not fit in
    /// a `usize`.
    pub fn request(&self, size: usize, align: usize, zeroed: bool) -> (r: Option<MallocRequest>)
        requires
            align > 0,
        ensures
            r.is_some() <==> request_size(size as nat, align as nat) <= usize::MAX,
            r.is_some() ==> r.unwrap().size == request_size(size as nat, align as nat),
            r.is_some() ==> r.unwrap().flags == if zeroed {
                M_WAITOK | M_ZERO
            } else {
                M_WAITOK
            },
    {
        let padded = if align <= KERNEL_ALIGN {
            size
        } else {
            match size.checked_add(align - KERNEL_ALIGN) {
                Some(v) => v,
                None => return None,
            }
        };
        let total = match padded.checked_add(WORD_SIZE) {
            Some(v) => v,
            None => return None,
        };
        let flags = if zeroed {
            M_WAITOK | M_ZERO
        } else {
            M_WAITOK
        };
        Some(MallocRequest { size: total, flags })
    }

    /// Places a region of `size` bytes aligned to `align` in the block at
    /// `mem` that the kernel returned for [`Allocator::request`]; `None` when
    /// the kernel returned null.
    pub fn place(&self, mem: usize, size: usize, align: usize) -> (r: Option<Placement>)
        requires
            is_pow2(align as nat),
            mem % KERNEL_ALIGN == 0,
            mem + request_size(size as nat, align as nat) <= usize::MAX + 1,
        ensures
            mem == 0 <==> r.is_none(),
            r.is_some() ==> {
                let p = r.unwrap();
                &&& p.shift == shift_for(mem as nat, align as nat)
                &&& p.ptr == mem + p.shift
                &&& p.ptr % align == 0
                &&& p.ptr + size + WORD_SIZE <= mem + request_size(size as nat, align as nat)
            },
    {
        if mem == 0 {
            return None;
        }
        proof {
            lemma_pow2_vs_kernel_align(align as nat);
        }
        let misaligned = mem % align;
        let shift = if misaligned == 0 {
            0
        } else {
            align - misaligned
        };
        proof {
            lemma_shift_fits(mem as nat, align as nat);
        }
        Some(Placement { ptr: mem + shift, shift })
    }

    /// The start of the kernel block behind `ptr`, given the shift read back
    /// from `ptr + size`; this is what is handed to the kernel's `free`.
    pub fn dealloc(&self, ptr: usize, shift: usize) -> (r: usize)
        requires
            shift <= ptr,
        ensures
            r == ptr - shift,
    {
        ptr - shift
    }
}

impl Default for Allocator {
    fn default() -> (r: Allocator) {
        Allocator::new()
    }
}

/// Shifting a kernel address to the next multiple of a power of two lands on
/// that multiple and stays within the padding [`request_size`] adds.
pub proof fn lemma_shift_fits(mem: nat, align: nat)
    requires
        is_pow2(align),
        mem % KERNEL_ALIGN as nat == 0,
    ensures
        align > 0,
        (mem + shift_for(mem, align)) % align == 0,
        shift_for(mem, align) < align,
        align <= KERNEL_ALIGN ==> shift_for(mem, align) == 0,
        align > KERNEL_ALIGN ==> shift_for(mem, align) <= align - KERNEL_ALIGN,
{
    lemma_pow2_vs_kernel_align(align);
    let m = mem % align;
    lemma_fundamental_div_mod(mem as int, align as int);
    if m != 0 {
        lemma_mod_multiples_basic((mem / align + 1) as int, align as int);
        assert((mem + (align - m)) == align * (mem / align + 1)) by (nonlinear_arith)
            requires
                mem == align * (mem / align) + m,
        ;
    }
    if align > KERNEL_ALIGN {
        // align is a multiple of 8, so m is a multiple of 8 below align.
        let k = align / KERNEL_ALIGN as nat;
        lemma_fundamental_div_mod(align as int, KERNEL_ALIGN as int);
        assert(align == 8 * k);
        lemma_mod_mod(mem as int, 8, k as int);
        assert(m % 8 == 0);
    }
}

} // verus!

verus! {

/// `malloc_type`: the tag that every kernel allocation carries.
pub struct Malloc {}

} // verus!

verus! {

/// Allocating `size` bytes aligned to a power of two `align` in the block the
/// kernel returned at `mem`, then freeing with the shift read back from past
/// the region, hands the kernel exactly `mem` again; the region is aligned,
/// and the region and the stored shift both lie within the block.
pub proof fn lemma_alloc_free_round_trip(mem: nat, size: nat, align: nat)
    requires
        is_pow2(align),
        mem % KERNEL_ALIGN as nat == 0,
    ensures
        ({
            let ptr = mem + shift_for(mem, align);
            &&& ptr % align == 0
            &&& mem <= ptr
            &&& ptr + size + WORD_SIZE <= mem + request_size(size, align)
            &&& ptr - shift_for(mem, align) == mem
        }),
{
    lemma_shift_fits(mem, align);
}

} // verus!
