//! Page ranges below an address ceiling: what to ask of the page allocator,
//! how to trim what it hands out to the requested alignment, and how the
//! retained pages are filled.

use vstd::prelude::*;
use vstd::arithmetic::div_mod::*;
use zeroize::Zeroize;
use crate::error::ProvisionError;
use crate::layout::{
    align_gap, is_aligned, is_alignment, lemma_align_gap_reaches_boundary,
    lemma_alignment_is_whole_pages, PhysAddr, MAX_PAGES, PAGE_SIZE,
};

verus! {

/// A run of whole pages.
#[derive(Clone, Copy, Debug, PartialEq, Eq, Structural)]
pub struct PageRange {
    pub base: PhysAddr,
    pub pages: u64,
}

/// A request for `pages` pages whose first address is a multiple of
/// `alignment` and whose last address does not exceed `ceiling`.
#[derive(Clone, Copy, Debug, PartialEq, Eq, Structural)]
pub struct RegionRequest {
    pub pages: u64,
    pub alignment: u64,
    pub ceiling: u64,
}

/// The pages kept from an allocation, published to the device.
#[derive(Clone, Copy, Debug, PartialEq, Eq, Structural)]
pub struct MemoryRegion {
    pub base: PhysAddr,
    pub pages: u64,
    pub alignment: u64,
}

/// How an allocation is divided: the region that is kept, and the slack
/// before and after it that goes back to the allocator. A side without slack
/// is `None`, and nothing is released there.
#[derive(Clone, Copy, Debug, PartialEq, Eq, Structural)]
pub struct Carving {
    pub region: MemoryRegion,
    pub leading: Option<PageRange>,
    pub trailing: Option<PageRange>,
}

/// The range of `pages` pages at `base`, or `None` for an empty one.
pub open spec fn slack(base: int, pages: int) -> Option<PageRange> {
    if pages > 0 {
        Some(PageRange { base: PhysAddr(base as u64), pages: pages as u64 })
    } else {
        None
    }
}

impl MemoryRegion {
    /// The base is aligned as requested and the region has pages.
    pub open spec fn wf(self) -> bool {
        &&& self.pages > 0
        &&& is_alignment(self.alignment)
        &&& is_aligned(self.base.0 as int, self.alignment as int)
    }

    /// The first address past the region.
    pub open spec fn end(self) -> int {
        self.base.0 + self.pages * PAGE_SIZE
    }

    /// Size of the region in bytes, unless that does not fit in 64 bits. A
    /// region whose end is an address always has a size.
    pub fn byte_len(&self) -> (len: Option<u64>)
        ensures
            self.pages * PAGE_SIZE <= u64::MAX ==> len == Some((self.pages * PAGE_SIZE) as u64),
            self.pages * PAGE_SIZE > u64::MAX ==> len.is_none(),
            self.end() <= u64::MAX ==> len.is_some(),
    {
        if self.pages <= u64::MAX / PAGE_SIZE {
            Some(self.pages * PAGE_SIZE)
        } else {
            None
        }
    }
}

impl RegionRequest {
    /// A request that can be made: at least one page, no more pages than an
    /// address space has, and an alignment that is a power of two of at
    /// least a page.
    pub open spec fn wf(self) -> bool {
        &&& 0 < self.pages <= MAX_PAGES
        &&& is_alignment(self.alignment)
    }

    /// Extra pages to allocate so that an aligned run of `pages` pages lies
    /// inside whatever page-aligned allocation comes back.
    pub open spec fn overallocation(self) -> int {
        self.alignment / PAGE_SIZE - 1
    }

    /// Pages to ask the allocator for.
    pub open spec fn total_pages(self) -> int {
        self.pages + self.overallocation()
    }

    /// Whether an allocation of `total_pages()` pages at `start` honours the
    /// request: it begins on a page boundary and ends at or below the ceiling.
    pub open spec fn honoured_by(self, start: u64) -> bool {
        &&& start % PAGE_SIZE == 0
        &&& start + self.total_pages() * PAGE_SIZE - 1 <= self.ceiling
    }

    /// Address of the first multiple of `alignment` at or above `start`.
    pub open spec fn region_base(self, start: u64) -> int {
        start + align_gap(start as int, self.alignment as int)
    }

    /// Pages of slack in front of the aligned region.
    pub open spec fn leading_pages(self, start: u64) -> int {
        align_gap(start as int, self.alignment as int) / (PAGE_SIZE as int)
    }

    /// Pages of slack behind the aligned region.
    pub open spec fn trailing_pages(self, start: u64) -> int {
        self.overallocation() - self.leading_pages(start)
    }

    /// The division of an allocation at `start` into leading slack, the
    /// aligned region of exactly `pages` pages, and trailing slack.
    pub open spec fn carving(self, start: u64) -> Carving {
        Carving {
            region: MemoryRegion {
                base: PhysAddr(self.region_base(start) as u64),
                pages: self.pages,
                alignment: self.alignment,
            },
            leading: slack(start as int, self.leading_pages(start)),
            trailing: slack(
                self.region_base(start) + self.pages * PAGE_SIZE,
                self.trailing_pages(start),
            ),
        }
    }

    /// Builds a request, or says why it cannot be made.
    pub fn new(pages: u64, alignment: u64, ceiling: u64) -> (made: Result<
        RegionRequest,
        ProvisionError,
    >)
        ensures
            made == if 0 < pages <= MAX_PAGES && is_alignment(alignment) {
                Ok(RegionRequest { pages, alignment, ceiling })
            } else {
                Err(ProvisionError::InvalidFormat)
            },
    {
        if pages == 0 || pages > MAX_PAGES {
            return Err(ProvisionError::InvalidFormat);
        }
        if alignment < PAGE_SIZE || alignment & (alignment - 1) != 0 {
            return Err(ProvisionError::InvalidFormat);
        }
        Ok(RegionRequest { pages, alignment, ceiling })
    }

    /// Number of pages to ask the allocator for.
    pub fn pages_to_allocate(&self) -> (total: u64)
        requires
            self.wf(),
        ensures
            total == self.total_pages(),
            total >= self.pages,
    {
        self.pages + (self.alignment / PAGE_SIZE - 1)
    }

    /// Divides the allocation that came back at `start`, or rejects an
    /// allocation that does not honour the request.
    pub fn carve(&self, start: u64) -> (carved: Result<Carving, ProvisionError>)
        requires
            self.wf(),
        ensures
            carved == if self.honoured_by(start) {
                Ok(self.carving(start))
            } else {
                Err(ProvisionError::AllocationFailure)
            },
    {
        let total: u64 = self.pages_to_allocate();
        if !PhysAddr(start).is_aligned_to(PAGE_SIZE) {
            return Err(ProvisionError::AllocationFailure);
        }
        if start as u128 + (total as u128) * (PAGE_SIZE as u128) > self.ceiling as u128 + 1 {
            return Err(ProvisionError::AllocationFailure);
        }
        proof {
            lemma_carving_tiles_allocation(*self, start);
        }
        let gap: u64 = PhysAddr(start).gap_to(self.alignment);
        let lead: u64 = gap / PAGE_SIZE;
        let trail: u64 = (self.alignment / PAGE_SIZE - 1) - lead;
        let base: u64 = start + gap;
        let leading: Option<PageRange> = if lead > 0 {
            Some(PageRange { base: PhysAddr(start), pages: lead })
        } else {
            None
        };
        let trailing: Option<PageRange> = if trail > 0 {
            Some(PageRange { base: PhysAddr(base + self.pages * PAGE_SIZE), pages: trail })
        } else {
            None
        };
        Ok(
            Carving {
                region: MemoryRegion {
                    base: PhysAddr(base),
                    pages: self.pages,
                    alignment: self.alignment,
                },
                leading,
                trailing,
            },
        )
    }
}

/// Wherever an allocation starts, the pages of slack in front of the aligned
/// region and those behind it are whole numbers that are not negative and
/// add up to the overallocation. Where it starts on a page boundary, the
/// leading slack ends exactly at the aligned base.
pub proof fn lemma_slack_adds_up(request: RegionRequest, start: u64)
    requires
        request.wf(),
    ensures
        0 <= request.leading_pages(start) <= request.overallocation(),
        0 <= request.trailing_pages(start) <= request.overallocation(),
        request.leading_pages(start) + request.trailing_pages(start) == request.overallocation(),
        is_aligned(request.region_base(start), request.alignment as int),
        start % PAGE_SIZE == 0 ==> start + request.leading_pages(start) * PAGE_SIZE
            == request.region_base(start),
{
    let a = request.alignment as int;
    let gap = align_gap(start as int, a);
    lemma_alignment_is_whole_pages(request.alignment);
    lemma_align_gap_reaches_boundary(start as int, a);
    if start % PAGE_SIZE == 0 {
        // The gap is a whole number of pages, because the start and the
        // boundary above it both lie on page boundaries.
        let boundary = start + gap;
        assert(boundary % (PAGE_SIZE as int) == 0) by {
            lemma_fundamental_div_mod(boundary, a);
            lemma_fundamental_div_mod(a, PAGE_SIZE as int);
            let q = boundary / a;
            let p = a / (PAGE_SIZE as int);
            assert(boundary == (p * q) * (PAGE_SIZE as int)) by (nonlinear_arith)
                requires
                    boundary == a * q,
                    a == (PAGE_SIZE as int) * p,
            ;
            lemma_mod_multiples_basic(p * q, PAGE_SIZE as int);
        }
        assert(gap % (PAGE_SIZE as int) == 0);
    }
}

/// In an honoured allocation the aligned region keeps exactly the requested
/// pages, and the slack on its two sides accounts for every other page:
/// both counts are whole and not negative, they add up to the
/// overallocation, and leading slack, region and trailing slack follow one
/// another from the start of the allocation to its end.
pub proof fn lemma_carving_tiles_allocation(request: RegionRequest, start: u64)
    requires
        request.wf(),
        request.honoured_by(start),
    ensures
        request.carving(start).region.wf(),
        request.carving(start).region.pages == request.pages,
        request.carving(start).region.base.0 == request.region_base(start),
        is_aligned(request.region_base(start), request.alignment as int),
        request.leading_pages(start) >= 0,
        request.trailing_pages(start) >= 0,
        request.leading_pages(start) + request.trailing_pages(start) == request.overallocation(),
        start + request.leading_pages(start) * PAGE_SIZE == request.region_base(start),
        request.region_base(start) + request.pages * PAGE_SIZE + request.trailing_pages(start)
            * PAGE_SIZE == start + request.total_pages() * PAGE_SIZE,
        request.region_base(start) + request.pages * PAGE_SIZE - 1 <= request.ceiling,
{
    lemma_slack_adds_up(request, start);
    lemma_alignment_is_whole_pages(request.alignment);
}

/// `len` zero bytes.
pub open spec fn zeroed(len: nat) -> Seq<u8> {
    Seq::new(len, |i: int| 0u8)
}

/// What a region of `len` bytes holds once `blob` has been loaded into it:
/// the bytes of the blob from the front, as far as they fit, then zeros.
pub open spec fn blob_image(len: nat, blob: Seq<u8>) -> Seq<u8> {
    Seq::new(
        len,
        |i: int|
            if i < blob.len() {
                blob[i]
            } else {
                0u8
            },
    )
}

/// Calls `zeroize::Zeroize::zeroize` on the byte slice. That method stores
/// `u8::default()`, which is zero, into every element with volatile writes
/// and leaves the length alone; it panics on a slice longer than
/// `isize::MAX`, which the precondition rules out.
#[verifier::external_body]
pub(crate) fn zeroize_bytes(bytes: &mut [u8])
    requires
        old(bytes)@.len() <= isize::MAX,
    ensures
        final(bytes)@ == zeroed(old(bytes)@.len()),
{
    bytes.zeroize();
}

/// Clears the region, then copies the blob into its front. A blob longer
/// than the region is cut off at the region's end. No slice of memory is
/// longer than `isize::MAX`, the most that the clearing accepts.
pub fn load_blob(region: &mut [u8], blob: &[u8])
    requires
        old(region)@.len() <= isize::MAX,
    ensures
        final(region)@ == blob_image(old(region)@.len(), blob@),
{
    zeroize_bytes(region);
    let count: usize = if blob.len() < region.len() {
        blob.len()
    } else {
        region.len()
    };
    let mut i: usize = 0;
    while i < count
        invariant
            i <= count,
            count <= blob@.len(),
            count <= region@.len(),
            region@.len() == old(region)@.len(),
            forall|j: int| 0 <= j < i ==> region@[j] == blob@[j],
            forall|j: int| i <= j < region@.len() ==> region@[j] == 0u8,
        decreases count - i,
    {
        region[i] = blob[i];
        i += 1;
    }
}

} // verus!
