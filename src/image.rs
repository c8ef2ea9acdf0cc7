//! Locating a loaded image from its program headers.
//!
//! The mapped extent of an image runs from its base to the end of its last
//! loadable or read-only-after-relocation segment, each end rounded up to the
//! segment's alignment.
use vstd::prelude::*;

verus! {

/// `PT_LOAD`: a loadable segment.
pub const PT_LOAD: u32 = 1;

/// `PT_SCE_RELRO`: a segment made read-only after relocation.
pub const PT_SCE_RELRO: u32 = 0x61000010;

/// One program header, reduced to what the extent depends on.
#[derive(Debug, Clone, Copy, PartialEq, Eq, Structural)]
pub struct ProgramHeader {
    /// `p_type`
    pub ty: u32,
    /// `p_vaddr`: where the segment starts, relative to the base.
    pub addr: u64,
    /// `p_memsz`: its size in memory.
    pub len: u64,
    /// `p_align`: zero or one for none.
    pub align: u64,
}

/// Whether the segment counts toward the mapped extent.
pub open spec fn is_mapped(h: ProgramHeader) -> bool {
    h.ty == PT_LOAD || h.ty == PT_SCE_RELRO
}

/// `x` rounded up to a multiple of `a`; unchanged for an alignment of zero
/// or one.
pub open spec fn round_up(x: int, a: int) -> int {
    if a <= 1 {
        x
    } else {
        ((x + a - 1) / a) * a
    }
}

/// The end of the extent of the mapped segments of `hs`, after an extent that
/// ends at `end`; `None` when a mapped segment starts before the end of the
/// ones before it.
pub open spec fn extent_after(hs: Seq<ProgramHeader>, end: int) -> Option<int>
    decreases hs.len(),
{
    if hs.len() == 0 {
        Some(end)
    } else if !is_mapped(hs[0]) {
        extent_after(hs.drop_first(), end)
    } else if (hs[0].addr as int) < end {
        None
    } else {
        extent_after(hs.drop_first(), round_up(hs[0].addr + hs[0].len, hs[0].align as int))
    }
}

/// No segment reaches so far that its rounded end leaves `u64`.
pub open spec fn headers_in_range(hs: Seq<ProgramHeader>) -> bool {
    forall|i: int| 0 <= i < hs.len() ==> #[trigger] hs[i].addr + hs[i].len + hs[i].align <= u64::MAX
}

/// The end of the mapped extent, relative to the base: the rounded end of the
/// last mapped segment. `None` when the headers are inconsistent: a mapped
/// segment starts before the end of the ones before it.
pub fn mapped_end(hs: &Vec<ProgramHeader>) -> (r: Option<u64>)
    requires
        headers_in_range(hs@),
    ensures
        r.is_some() <==> extent_after(hs@, 0).is_some(),
        r.is_some() ==> r.unwrap() == extent_after(hs@, 0).unwrap(),
{
    let mut end: u64 = 0;
    let mut i: usize = 0;
    assert(hs@.skip(0) =~= hs@);
    while i < hs.len()
        invariant
            i <= hs@.len(),
            headers_in_range(hs@),
            extent_after(hs@, 0) == extent_after(hs@.skip(i as int), end as int),
        decreases hs@.len() - i,
    {
        let h = hs[i];
        proof {
            assert(hs@.skip(i as int).drop_first() =~= hs@.skip(i + 1));
            assert(hs@.skip(i as int)[0] == h);
        }
        if h.ty == PT_LOAD || h.ty == PT_SCE_RELRO {
            if h.addr < end {
                return None;
            }
            let top: u64 = h.addr + h.len;
            let rounded: u64 = if h.align <= 1 {
                top
            } else {
                let q: u64 = (top + (h.align - 1)) / h.align;
                proof {
                    lemma_round_up_bound(top as int, h.align as int);
                }
                q * h.align
            };
            end = rounded;
        }
        i = i + 1;
    }
    proof {
        assert(hs@.skip(i as int) =~= Seq::<ProgramHeader>::empty());
    }
    Some(end)
}

/// Rounding up adds less than the alignment.
proof fn lemma_round_up_bound(x: int, a: int)
    requires
        x >= 0,
        a > 1,
    ensures
        x <= ((x + a - 1) / a) * a < x + a,
{
    let q = (x + a - 1) / a;
    let m = (x + a - 1) % a;
    assert(x + a - 1 == q * a + m && 0 <= m < a) by {
        vstd::arithmetic::div_mod::lemma_fundamental_div_mod(x + a - 1, a);
        assert(a * q == q * a) by (nonlinear_arith);
    }
}

/// The address range an image occupies once loaded.
#[derive(Debug, Clone, Copy, PartialEq, Eq, Structural)]
pub struct MappedImage {
    /// Where the image starts.
    pub start: u64,
    /// One past its last mapped byte.
    pub end: u64,
}

impl MappedImage {
    /// The range of the image loaded at `base` with the program headers `hs`;
    /// `None` when the headers are inconsistent, or the range leaves `u64`.
    pub fn from_headers(base: u64, hs: &Vec<ProgramHeader>) -> (r: Option<MappedImage>)
        requires
            headers_in_range(hs@),
        ensures
            r.is_some() <==> extent_after(hs@, 0).is_some() && base + extent_after(hs@, 0).unwrap()
                <= u64::MAX,
            r.is_some() ==> r.unwrap().start == base && r.unwrap().end == base + extent_after(
                hs@,
                0,
            ).unwrap(),
    {
        match mapped_end(hs) {
            None => None,
            Some(len) => {
                if len > u64::MAX - base {
                    None
                } else {
                    Some(MappedImage { start: base, end: base + len })
                }
            },
        }
    }
}

} // verus!
