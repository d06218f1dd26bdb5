//! Physical addresses, pages and alignment arithmetic.

use vstd::prelude::*;
use vstd::arithmetic::div_mod::*;

verus! {

/// Size of one page of physical memory, in bytes.
pub const PAGE_SIZE: u64 = 0x1000;

/// Highest physical address that a 32-bit configuration register can hold.
pub const ADDRESS_CEILING: u64 = 0xFFFF_FFFF;

/// Number of pages in a 64-bit address space; no region has more.
pub const MAX_PAGES: u64 = 0x10_0000_0000_0000;

/// Number of pages needed to hold `size` bytes: `size / PAGE_SIZE`, rounded up.
pub open spec fn page_count(size: int) -> int {
    (size + PAGE_SIZE - 1) / (PAGE_SIZE as int)
}

/// Distance in bytes from `addr` up to the next multiple of `alignment`
/// (zero when `addr` is such a multiple).
pub open spec fn align_gap(addr: int, alignment: int) -> int {
    (alignment - addr % alignment) % alignment
}

/// Whether `addr` is a multiple of `alignment`.
pub open spec fn is_aligned(addr: int, alignment: int) -> bool {
    addr % alignment == 0
}

/// An alignment that a region may ask for: a power of two, at least one page.
pub open spec fn is_alignment(alignment: u64) -> bool {
    alignment >= PAGE_SIZE && alignment & ((alignment - 1) as u64) == 0
}

/// `page_count(size)` pages are the fewest that hold `size` bytes.
pub proof fn lemma_page_count_covers(size: int)
    requires
        size >= 0,
    ensures
        page_count(size) * PAGE_SIZE >= size,
        page_count(size) * PAGE_SIZE < size + PAGE_SIZE,
        size % (PAGE_SIZE as int) == 0 ==> page_count(size) * PAGE_SIZE == size,
{
}

/// A power of two that is at least one page is a whole number of pages.
pub proof fn lemma_alignment_is_whole_pages(alignment: u64)
    requires
        is_alignment(alignment),
    ensures
        alignment % PAGE_SIZE == 0,
{
    assert(alignment >= 0x1000 && alignment & ((alignment - 1) as u64) == 0 ==> alignment % 0x1000
        == 0) by (bit_vector);
}

/// Moving up by `align_gap` reaches a multiple of `alignment`, and no shorter
/// move does.
pub proof fn lemma_align_gap_reaches_boundary(addr: int, alignment: int)
    requires
        addr >= 0,
        alignment > 0,
    ensures
        0 <= align_gap(addr, alignment) < alignment,
        is_aligned(addr + align_gap(addr, alignment), alignment),
        forall|g: int|
            0 <= g < align_gap(addr, alignment) ==> !#[trigger] is_aligned(addr + g, alignment),
{
    let r = addr % alignment;
    let q = addr / alignment;
    lemma_fundamental_div_mod(addr, alignment);
    lemma_mod_bound(addr, alignment);
    if r == 0 {
        lemma_mod_self_0(alignment);
        assert(align_gap(addr, alignment) == 0);
    } else {
        lemma_small_mod((alignment - r) as nat, alignment as nat);
        assert(align_gap(addr, alignment) == alignment - r);
        assert(addr + (alignment - r) == alignment * (q + 1)) by (nonlinear_arith)
            requires
                addr == alignment * q + r,
        ;
        lemma_mod_multiples_basic(q + 1, alignment);
        assert forall|g: int| 0 <= g < alignment - r implies !#[trigger] is_aligned(
            addr + g,
            alignment,
        ) by {
            lemma_fundamental_div_mod_converse(addr + g, alignment, q, r + g);
        }
    }
}

/// A physical address.
#[derive(Clone, Copy, Debug, PartialEq, Eq, Structural)]
pub struct PhysAddr(pub u64);

impl PhysAddr {
    /// Whether the address is a multiple of `alignment`.
    pub fn is_aligned_to(self, alignment: u64) -> (aligned: bool)
        requires
            alignment > 0,
        ensures
            aligned == is_aligned(self.0 as int, alignment as int),
    {
        self.0 % alignment == 0
    }

    /// Bytes from this address up to the next multiple of `alignment`.
    pub fn gap_to(self, alignment: u64) -> (gap: u64)
        requires
            alignment > 0,
        ensures
            gap == align_gap(self.0 as int, alignment as int),
    {
        let rest: u64 = self.0 % alignment;
        proof {
            lemma_mod_self_0(alignment as int);
            if rest != 0 {
                lemma_small_mod((alignment - rest) as nat, alignment as nat);
            }
        }
        if rest == 0 {
            0
        } else {
            alignment - rest
        }
    }

    /// The address `bytes` above this one, unless that leaves the address space.
    pub fn offset(self, bytes: u64) -> (moved: Option<PhysAddr>)
        ensures
            self.0 + bytes <= u64::MAX ==> moved == Some(PhysAddr((self.0 + bytes) as u64)),
            self.0 + bytes > u64::MAX ==> moved.is_none(),
    {
        if bytes <= u64::MAX - self.0 {
            Some(PhysAddr(self.0 + bytes))
        } else {
            None
        }
    }
}

/// The number of pages that hold `size` bytes.
pub fn pages_for(size: u64) -> (pages: u64)
    ensures
        pages == page_count(size as int),
{
    if size % PAGE_SIZE == 0 {
        size / PAGE_SIZE
    } else {
        size / PAGE_SIZE + 1
    }
}

} // verus!
