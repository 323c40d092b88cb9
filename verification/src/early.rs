//! The bootstrap allocator: a double-ended memory range.
//!
//! ```text
//! [ bytes-used | avail-area | pages-used ]
//! |            | -->    <-- |            |
//! start     bytes_pos    pages_pos      end
//! ```
//!
//! Bytes are handed out growing forward from `start`; whole pages are handed
//! out growing backward from `end`. The byte arena keeps no per-allocation
//! records, only a live-allocation counter: when it returns to zero the whole
//! arena is reclaimed at once. Pages are never reclaimed.

use vstd::prelude::*;

use crate::addr::{
    align_down, align_up, checked_align_up, is_power_of_two, lemma_align_up, spec_align_down,
    spec_align_up,
};
use crate::{AllocError, PAGE_SIZE};
use vstd::arithmetic::power2::pow2;
use vstd::bits::{lemma_usize_pow2_no_overflow, lemma_usize_shl_is_mul};

verus! {

/// Early memory allocator, for use before the formal byte and page
/// allocators can work.
///
/// Constructed with every field zero, it becomes active through [`Self::init`],
/// exactly once, and stays active for its lifetime. It never touches the
/// memory it manages: all operations are cursor arithmetic over addresses.
pub struct EarlyAllocator {
    /// First address of the managed region.
    pub start: usize,
    /// One past the last address of the managed region.
    pub end: usize,
    /// Next candidate address for a byte allocation; grows forward.
    pub bytes_pos: usize,
    /// Lowest address handed out as pages; grows backward.
    pub pages_pos: usize,
    /// Live byte allocations; the byte arena resets when it returns to zero.
    pub bytes_count: usize,
}

impl EarlyAllocator {
    /// The allocator has been initialized over a non-empty region.
    pub open spec fn is_active(&self) -> bool {
        self.end > self.start
    }

    /// Well-formedness: the cursors sit inside the region and never cross,
    /// the live counter never exceeds the bytes the arena has consumed, and
    /// an uninitialized allocator is all zero.
    pub open spec fn wf(&self) -> bool {
        &&& self.start <= self.bytes_pos <= self.pages_pos <= self.end
        &&& self.bytes_count <= self.bytes_pos - self.start
        &&& (self.bytes_count == 0 ==> self.bytes_pos == self.start)
        &&& (!self.is_active() ==> self.start == 0 && self.end == 0 && self.bytes_pos == 0
            && self.pages_pos == 0 && self.bytes_count == 0)
    }

    /// Total bytes of the region.
    pub open spec fn spec_total_bytes(&self) -> int {
        self.end - self.start
    }

    /// Bytes committed to either arena: everything the byte arena has
    /// consumed since its last bulk reset, plus everything the page arena
    /// holds. Individual byte frees are not tracked, so this only falls when
    /// the whole byte arena resets.
    pub open spec fn spec_used_bytes(&self) -> int {
        (self.bytes_pos - self.start) + (self.end - self.pages_pos)
    }

    /// Bytes in the live gap between the two arenas.
    pub open spec fn spec_available_bytes(&self) -> int {
        self.pages_pos - self.bytes_pos
    }

    /// A byte request of `size` and `align` fits: the rounded-up cursor plus
    /// the size stays at or below the page arena.
    pub open spec fn byte_alloc_fits(&self, size: int, align: int) -> bool {
        spec_align_up(self.bytes_pos as int, align) + size <= self.pages_pos
    }

    /// Address a fitting byte request of `align` would be served at.
    pub open spec fn byte_alloc_target(&self, align: int) -> int {
        spec_align_up(self.bytes_pos as int, align)
    }

    /// A page request fits: the rounded-down target stays at or above the
    /// byte arena. `num_pages * PAGE_SIZE` bytes are taken, the target is
    /// aligned down to `align`.
    pub open spec fn page_alloc_fits(&self, num_pages: int, align: int) -> bool {
        self.bytes_pos <= self.page_alloc_target(num_pages, align)
    }

    /// Address a fitting page request would be served at.
    pub open spec fn page_alloc_target(&self, num_pages: int, align: int) -> int {
        spec_align_down(self.pages_pos - num_pages * (PAGE_SIZE as int), align)
    }

    /// Create a new, uninitialized allocator.
    pub fn new() -> (a: Self)
        ensures
            a.wf(),
            !a.is_active(),
            a == (EarlyAllocator { start: 0, end: 0, bytes_pos: 0, pages_pos: 0, bytes_count: 0 }),
    {
        Self { start: 0, end: 0, bytes_pos: 0, pages_pos: 0, bytes_count: 0 }
    }

    /// A region is valid when it is non-empty and its end does not overflow
    /// the address space.
    pub fn is_valid_range(&self, start: usize, size: usize) -> (r: bool)
        ensures
            r == (start + size <= usize::MAX && size > 0),
    {
        if start.checked_add(size).is_none() {
            return false;
        }
        size > 0
    }

    /// Round `addr` up to a multiple of `align`.
    pub fn align_up(&self, addr: usize, align: usize) -> (r: usize)
        requires
            align > 0,
            spec_align_up(addr as int, align as int) <= usize::MAX,
        ensures
            r == spec_align_up(addr as int, align as int),
    {
        align_up(addr, align)
    }

    /// Initialize the allocator with a free memory region.
    ///
    /// Must be called exactly once; the caller guarantees a valid region
    /// (see [`Self::is_valid_range`]).
    pub fn init(&mut self, start: usize, size: usize)
        requires
            !old(self).is_active(),
            old(self).wf(),
            start + size <= usize::MAX,
            size > 0,
        ensures
            final(self).wf(),
            final(self).is_active(),
            final(self).start == start,
            final(self).end == start + size,
            final(self).bytes_pos == start,
            final(self).pages_pos == start + size,
            final(self).bytes_count == 0,
    {
        self.start = start;
        self.end = start + size;
        self.bytes_pos = start;
        self.pages_pos = self.end;
        self.bytes_count = 0;
    }

    /// Adding a second region is not supported: this allocator manages
    /// exactly one contiguous range.
    pub fn add_memory(&mut self, _start: usize, _size: usize) -> (r: Result<(), AllocError>)
        ensures
            *final(self) == *old(self),
            r == Err::<(), AllocError>(AllocError::Unsupported),
    {
        Err(AllocError::Unsupported)
    }

    /// Allocate `size` bytes at alignment `align` from the forward arena.
    ///
    /// (Named `alloc_bytes` to mirror [`Self::alloc_pages`]: this side of the
    /// region serves raw bytes.)
    ///
    /// Fails with `InvalidParam` on a zero-size request or when the computed
    /// address cannot be represented as non-null, and with `MemoryOverlap`
    /// when the request would run into the page arena; failure leaves the
    /// allocator unchanged.
    pub fn alloc_bytes(&mut self, size: usize, align: usize) -> (r: Result<usize, AllocError>)
        requires
            old(self).wf(),
            old(self).is_active(),
            is_power_of_two(align as int),
        ensures
            final(self).wf(),
            final(self).start == old(self).start,
            final(self).end == old(self).end,
            final(self).pages_pos == old(self).pages_pos,
            size == 0 ==> r == Err::<usize, AllocError>(AllocError::InvalidParam) && *final(self)
                == *old(self),
            size > 0 && !old(self).byte_alloc_fits(size as int, align as int) ==> r == Err::<
                usize,
                AllocError,
            >(AllocError::MemoryOverlap) && *final(self) == *old(self),
            size > 0 && old(self).byte_alloc_fits(size as int, align as int) && old(
                self,
            ).byte_alloc_target(align as int) == 0 ==> r == Err::<usize, AllocError>(
                AllocError::InvalidParam,
            ) && *final(self) == *old(self),
            size > 0 && old(self).byte_alloc_fits(size as int, align as int) && old(
                self,
            ).byte_alloc_target(align as int) != 0 ==> {
                &&& r == Ok::<usize, AllocError>(
                    old(self).byte_alloc_target(align as int) as usize,
                )
                &&& final(self).bytes_pos == old(self).byte_alloc_target(align as int) + size
                &&& final(self).bytes_count == old(self).bytes_count + 1
            },
            r matches Ok(a) ==> old(self).start <= a && a + size <= old(self).end && a != 0 && a
                % align == 0 && old(self).bytes_pos <= a,
    {
        if size == 0 {
            return Err(AllocError::InvalidParam);
        }
        proof {
            lemma_align_up(self.bytes_pos as int, align as int);
        }
        let aligned = match checked_align_up(self.bytes_pos, align) {
            Some(a) => a,
            None => {
                return Err(AllocError::MemoryOverlap);
            },
        };
        let new_pos = match aligned.checked_add(size) {
            Some(p) => p,
            None => {
                return Err(AllocError::MemoryOverlap);
            },
        };
        if new_pos > self.pages_pos {
            return Err(AllocError::MemoryOverlap);
        }
        if aligned == 0 {
            return Err(AllocError::InvalidParam);
        }
        self.bytes_pos = new_pos;
        self.bytes_count = self.bytes_count + 1;
        Ok(aligned)
    }

    /// Free one byte allocation.
    ///
    /// Individual blocks cannot be reclaimed — only the live counter moves;
    /// when it returns to zero the whole byte arena resets to `start`.
    /// The caller guarantees the triple matches a prior successful
    /// [`Self::alloc_bytes`]; the arguments are otherwise not validated.
    pub fn dealloc(&mut self, _pos: usize, _size: usize, _align: usize)
        requires
            old(self).wf(),
        ensures
            final(self).wf(),
            *final(self) == dealloc_step(*old(self)),
            final(self).bytes_count == if old(self).bytes_count > 0 {
                old(self).bytes_count - 1
            } else {
                0
            },
            final(self).bytes_count == 0 ==> final(self).bytes_pos == final(self).start,
            final(self).start == old(self).start,
            final(self).end == old(self).end,
            final(self).pages_pos == old(self).pages_pos,
    {
        if self.bytes_count > 0 {
            self.bytes_count = self.bytes_count - 1;
            if self.bytes_count == 0 {
                self.bytes_pos = self.start;
            }
        }
    }

    /// Total size of the managed region, in bytes.
    pub fn total_bytes(&self) -> (r: usize)
        requires
            self.wf(),
        ensures
            r == self.spec_total_bytes(),
    {
        self.end - self.start
    }

    /// Bytes committed to the byte arena (since its last bulk reset) and to
    /// the page arena together.
    pub fn used_bytes(&self) -> (r: usize)
        requires
            self.wf(),
        ensures
            r == self.spec_used_bytes(),
    {
        (self.bytes_pos - self.start) + (self.end - self.pages_pos)
    }

    /// Bytes still available between the two arenas.
    pub fn available_bytes(&self) -> (r: usize)
        requires
            self.wf(),
        ensures
            r == self.spec_available_bytes(),
    {
        self.pages_pos - self.bytes_pos
    }

    /// Allocate `num_pages` contiguous pages, aligned to `1 << align_pow2`,
    /// from the backward arena.
    ///
    /// Fails with `InvalidParam` on a zero-count request and with `NoMemory`
    /// when the pages would run into the byte arena; failure leaves the
    /// allocator unchanged.
    pub fn alloc_pages(&mut self, num_pages: usize, align_pow2: usize) -> (r: Result<
        usize,
        AllocError,
    >)
        requires
            old(self).wf(),
            old(self).is_active(),
            align_pow2 < usize::BITS as usize,
        ensures
            final(self).wf(),
            final(self).start == old(self).start,
            final(self).end == old(self).end,
            final(self).bytes_pos == old(self).bytes_pos,
            final(self).bytes_count == old(self).bytes_count,
            num_pages == 0 ==> r == Err::<usize, AllocError>(AllocError::InvalidParam)
                && *final(self) == *old(self),
            num_pages > 0 && !old(self).page_alloc_fits(
                num_pages as int,
                pow2(align_pow2 as nat) as int,
            ) ==> r == Err::<usize, AllocError>(AllocError::NoMemory) && *final(self) == *old(self),
            num_pages > 0 && old(self).page_alloc_fits(
                num_pages as int,
                pow2(align_pow2 as nat) as int,
            ) ==> {
                &&& r == Ok::<usize, AllocError>(
                    old(self).page_alloc_target(
                        num_pages as int,
                        pow2(align_pow2 as nat) as int,
                    ) as usize,
                )
                &&& final(self).pages_pos == old(self).page_alloc_target(
                    num_pages as int,
                    pow2(align_pow2 as nat) as int,
                )
            },
            r matches Ok(a) ==> old(self).bytes_pos <= a && a + num_pages * PAGE_SIZE <= old(
                self,
            ).pages_pos && (a as int) % (pow2(align_pow2 as nat) as int) == 0,
    {
        proof {
            lemma_usize_pow2_no_overflow(align_pow2 as nat);
            lemma_usize_shl_is_mul(1usize, align_pow2);
        }
        if num_pages == 0 {
            return Err(AllocError::InvalidParam);
        }
        let align: usize = 1usize << align_pow2;
        let bytes_needed = match num_pages.checked_mul(PAGE_SIZE) {
            Some(b) => b,
            None => {
                return Err(AllocError::NoMemory);
            },
        };
        let target_base = match self.pages_pos.checked_sub(bytes_needed) {
            Some(t) => t,
            None => {
                return Err(AllocError::NoMemory);
            },
        };
        let aligned = align_down(target_base, align);
        if aligned < self.bytes_pos {
            return Err(AllocError::NoMemory);
        }
        self.pages_pos = aligned;
        Ok(aligned)
    }

    /// Pages handed out are never returned: deallocation is a permanent
    /// no-op, and the allocator is left exactly as it was.
    pub fn dealloc_pages(&mut self, _pos: usize, _num_pages: usize)
        ensures
            *final(self) == *old(self),
    {
    }

    /// Total pages the region could hold.
    pub fn total_pages(&self) -> (r: usize)
        requires
            self.wf(),
        ensures
            r == self.spec_total_bytes() / (PAGE_SIZE as int),
    {
        (self.end - self.start) / PAGE_SIZE
    }

    /// Pages the backward arena has handed out (alignment slack included).
    pub fn used_pages(&self) -> (r: usize)
        requires
            self.wf(),
        ensures
            r == (self.end - self.pages_pos) / (PAGE_SIZE as int),
    {
        (self.end - self.pages_pos) / PAGE_SIZE
    }

    /// Whole pages still available between the two arenas.
    pub fn available_pages(&self) -> (r: usize)
        requires
            self.wf(),
        ensures
            r == self.spec_available_bytes() / (PAGE_SIZE as int),
    {
        (self.pages_pos - self.bytes_pos) / PAGE_SIZE
    }
}

/// Effect of one byte deallocation on the allocator state.
pub open spec fn dealloc_step(a: EarlyAllocator) -> EarlyAllocator {
    if a.bytes_count > 1 {
        EarlyAllocator { bytes_count: (a.bytes_count - 1) as usize, ..a }
    } else if a.bytes_count == 1 {
        EarlyAllocator { bytes_count: 0, bytes_pos: a.start, ..a }
    } else {
        a
    }
}

/// Effect of `n` successive byte deallocations.
pub open spec fn dealloc_steps(a: EarlyAllocator, n: nat) -> EarlyAllocator
    decreases n,
{
    if n == 0 {
        a
    } else {
        dealloc_steps(dealloc_step(a), (n - 1) as nat)
    }
}

/// One deallocation step preserves well-formedness and the region, and
/// decrements the live counter.
pub proof fn lemma_dealloc_step(a: EarlyAllocator)
    requires
        a.wf(),
    ensures
        dealloc_step(a).wf(),
        dealloc_step(a).start == a.start,
        dealloc_step(a).end == a.end,
        dealloc_step(a).pages_pos == a.pages_pos,
        dealloc_step(a).bytes_count == if a.bytes_count > 0 {
            a.bytes_count - 1
        } else {
            0
        },
{
}

/// Bulk-reclamation law: after any `n` byte allocations, `n` matching
/// deallocations — in any order, since the arena tracks only the live
/// counter — return the byte arena exactly to `start`.
pub proof fn lemma_bulk_reset(a: EarlyAllocator, n: nat)
    requires
        a.wf(),
        a.bytes_count == n,
    ensures
        dealloc_steps(a, n).wf(),
        dealloc_steps(a, n).bytes_pos == a.start,
        dealloc_steps(a, n).bytes_count == 0,
        dealloc_steps(a, n).start == a.start,
        dealloc_steps(a, n).end == a.end,
        dealloc_steps(a, n).pages_pos == a.pages_pos,
    decreases n,
{
    if n == 0 {
    } else {
        lemma_dealloc_step(a);
        lemma_bulk_reset(dealloc_step(a), (n - 1) as nat);
    }
}

/// Accounting law: after every operation,
/// `total_bytes() == used_bytes() + available_bytes()`.
pub proof fn lemma_byte_accounting(a: EarlyAllocator)
    requires
        a.wf(),
    ensures
        a.spec_total_bytes() == a.spec_used_bytes() + a.spec_available_bytes(),
{
}

/// Disjointness law: the byte arena `[start, bytes_pos)` and the page arena
/// `[pages_pos, end)` never share an address.
pub proof fn lemma_zones_disjoint(a: EarlyAllocator, addr: int)
    requires
        a.wf(),
    ensures
        !(a.start <= addr < a.bytes_pos && a.pages_pos <= addr < a.end),
{
}

} // verus!
