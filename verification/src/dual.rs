//! The dual-arena byte allocator.
//!
//! The managed region is split at initialization into a pool zone
//! `[pool_start, bump_start)`, reserved for a pooled sub-allocator, and a
//! bump zone `[bump_start, region_end)` with two cursors growing toward each
//! other:
//!
//! ```text
//! [ pool zone | fwd-used | avail | bwd-used ]
//! |           |      --> |       | <--      |
//! pool_start bump_start front   back   region_end
//! ```
//!
//! Requests whose alignment matches the pool's alignment class are routed to
//! the pooled sub-allocator; every other request lands in the bump zone, on
//! alternating sides. The pooled sub-allocator is an external collaborator
//! that writes free-list metadata into its zone, so this type never holds it:
//! an operation that belongs to the pool reports that as its
//! [`Placement`], and the surrounding layer performs the delegated call.
//! Everything this type itself does is cursor arithmetic over addresses, and
//! is verified: the cursors never cross, the zones never overlap, and
//! `total_bytes() == used_bytes() + available_bytes()` after every operation.

use vstd::prelude::*;

use crate::addr::{
    align_down, checked_align_up, is_power_of_two, lemma_align_up, spec_align_down, spec_align_up,
};
use crate::AllocError;
use vstd::arithmetic::div_mod::{lemma_small_mod, lemma_sub_mod_noop};

verus! {

/// The alignment class reserved for the pooled sub-allocator: 8-byte-aligned
/// requests dominate small dynamic-structure overhead and are served from
/// the pool, keeping the bump zone free for the rest.
pub const POOL_ALIGN: usize = 8;

/// Where a request is served.
#[derive(Clone, Copy, PartialEq, Eq, Structural, Debug)]
pub enum Placement {
    /// The request belongs to the pool's alignment class: delegate it to the
    /// pooled sub-allocator over the pool zone.
    Pool,
    /// Served from the bump zone at this address.
    Bump(usize),
}

/// Dual-arena byte allocator: a pooled zone for one alignment class, a
/// double-ended bump zone for everything else.
///
/// Constructed with every field zero, it becomes active through
/// [`Self::init`], exactly once, and stays active for its lifetime.
pub struct LabByteAllocator {
    /// First address of the pool zone.
    pub pool_start: usize,
    /// End of the pool zone and start of the bump zone.
    pub bump_start: usize,
    /// Forward bump cursor; monotonically non-decreasing while allocations
    /// are live, reset only by the most-recent-block reclamation.
    pub front: usize,
    /// Backward bump cursor; monotonically non-increasing.
    pub back: usize,
    /// One past the highest manageable address; `back` starts here.
    pub region_end: usize,
    /// Side-selection toggle: the next bump request goes forward when
    /// `false`, backward when `true`. Owned per instance so that several
    /// allocators never interfere.
    pub flip: bool,
}

impl LabByteAllocator {
    /// The allocator has been initialized.
    pub open spec fn is_active(&self) -> bool {
        self.region_end > 0
    }

    /// Well-formedness: the zone boundaries and both cursors are ordered,
    /// addresses are non-null, and an uninitialized allocator is all zero.
    pub open spec fn wf(&self) -> bool {
        if self.is_active() {
            0 < self.pool_start <= self.bump_start <= self.front <= self.back <= self.region_end
        } else {
            self.pool_start == 0 && self.bump_start == 0 && self.front == 0 && self.back == 0
                && !self.flip
        }
    }

    /// Total bytes of the bump zone. The pool zone's capacity is accounted
    /// separately, as permanently reserved.
    pub open spec fn spec_total_bytes(&self) -> int {
        self.region_end - self.bump_start
    }

    /// Bytes committed on both sides of the bump zone.
    pub open spec fn spec_used_bytes(&self) -> int {
        (self.region_end - self.back) + (self.front - self.bump_start)
    }

    /// Bytes left between the two cursors.
    pub open spec fn spec_available_bytes(&self) -> int {
        self.back - self.front
    }

    /// A forward-side request fits: the rounded-up cursor plus the size
    /// stays at or below `back`.
    pub open spec fn fwd_fits(&self, size: int, align: int) -> bool {
        self.fwd_target(align) + size <= self.back
    }

    /// Address a fitting forward-side request would be served at.
    pub open spec fn fwd_target(&self, align: int) -> int {
        spec_align_up(self.front as int, align)
    }

    /// A backward-side request fits: the rounded-down cursor minus the size
    /// stays at or above `front`.
    pub open spec fn bwd_fits(&self, size: int, align: int) -> bool {
        self.front + size <= spec_align_down(self.back as int, align)
    }

    /// Address a fitting backward-side request would be served at, and the
    /// new value of `back`.
    pub open spec fn bwd_target(&self, size: int, align: int) -> int {
        spec_align_down(self.back as int, align) - size
    }

    /// Create a new, uninitialized allocator.
    pub fn new() -> (a: Self)
        ensures
            a.wf(),
            !a.is_active(),
            a == (LabByteAllocator {
                pool_start: 0,
                bump_start: 0,
                front: 0,
                back: 0,
                region_end: 0,
                flip: false,
            }),
    {
        Self { pool_start: 0, bump_start: 0, front: 0, back: 0, region_end: 0, flip: false }
    }

    /// Initialize the allocator over `[start, start + size)`.
    ///
    /// The first `pool_capacity` bytes become the pool zone, to be handed to
    /// the pooled sub-allocator; the bump zone runs from its end up to
    /// `region_end`, a configured upper bound of the manageable address
    /// space that may lie beyond the initially reported region. Must be
    /// called exactly once.
    pub fn init(&mut self, start: usize, size: usize, pool_capacity: usize, region_end: usize)
        requires
            !old(self).is_active(),
            old(self).wf(),
            0 < start,
            0 < size,
            0 < pool_capacity <= size,
            start + size <= region_end,
        ensures
            final(self).wf(),
            final(self).is_active(),
            final(self).pool_start == start,
            final(self).bump_start == start + pool_capacity,
            final(self).front == start + pool_capacity,
            final(self).back == region_end,
            final(self).region_end == region_end,
            !final(self).flip,
    {
        self.pool_start = start;
        self.bump_start = start + pool_capacity;
        self.front = self.bump_start;
        self.back = region_end;
        self.region_end = region_end;
        self.flip = false;
    }

    /// Adding a second region is not supported: this allocator manages
    /// exactly one contiguous region.
    pub fn add_memory(&mut self, _start: usize, _size: usize) -> (r: Result<(), AllocError>)
        ensures
            *final(self) == *old(self),
            r == Err::<(), AllocError>(AllocError::Unsupported),
    {
        Err(AllocError::Unsupported)
    }

    /// Serve a request of `size` bytes at alignment `align`.
    ///
    /// Pool-class requests (`align == POOL_ALIGN`) are routed to the pooled
    /// sub-allocator and leave this state untouched; on pool exhaustion the
    /// surrounding layer reports `NoMemory` rather than falling back here.
    /// Every other request toggles the side-selection flag and lands on the
    /// forward or backward side of the bump zone. A zero-size request fails
    /// with `InvalidParam`; a request the bump zone cannot hold fails with
    /// `MemoryOverlap`; failure never moves a cursor.
    pub fn allocate(&mut self, size: usize, align: usize) -> (r: Result<Placement, AllocError>)
        requires
            old(self).wf(),
            old(self).is_active(),
            is_power_of_two(align as int),
        ensures
            final(self).wf(),
            final(self).is_active(),
            final(self).pool_start == old(self).pool_start,
            final(self).bump_start == old(self).bump_start,
            final(self).region_end == old(self).region_end,
            size == 0 ==> r == Err::<Placement, AllocError>(AllocError::InvalidParam)
                && *final(self) == *old(self),
            size > 0 && align == POOL_ALIGN ==> r == Ok::<Placement, AllocError>(Placement::Pool)
                && *final(self) == *old(self),
            size > 0 && align != POOL_ALIGN ==> final(self).flip == !old(self).flip,
            size > 0 && align != POOL_ALIGN && !old(self).flip ==> if old(self).fwd_fits(
                size as int,
                align as int,
            ) {
                &&& r == Ok::<Placement, AllocError>(
                    Placement::Bump(old(self).fwd_target(align as int) as usize),
                )
                &&& final(self).front == old(self).fwd_target(align as int) + size
                &&& final(self).back == old(self).back
            } else {
                &&& r == Err::<Placement, AllocError>(AllocError::MemoryOverlap)
                &&& final(self).front == old(self).front
                &&& final(self).back == old(self).back
            },
            size > 0 && align != POOL_ALIGN && old(self).flip ==> if old(self).bwd_fits(
                size as int,
                align as int,
            ) {
                &&& r == Ok::<Placement, AllocError>(
                    Placement::Bump(old(self).bwd_target(size as int, align as int) as usize),
                )
                &&& final(self).back == old(self).bwd_target(size as int, align as int)
                &&& final(self).front == old(self).front
            } else {
                &&& r == Err::<Placement, AllocError>(AllocError::MemoryOverlap)
                &&& final(self).front == old(self).front
                &&& final(self).back == old(self).back
            },
            r matches Ok(Placement::Bump(a)) ==> old(self).bump_start <= a && a + size <= old(
                self,
            ).region_end && a != 0,
            old(self).flip || (r matches Ok(Placement::Bump(a)) ==> (a as int) % (align as int)
                == 0),
            size as int % align as int != 0 || (r matches Ok(Placement::Bump(a)) ==> (a as int)
                % (align as int) == 0),
    {
        if size == 0 {
            return Err(AllocError::InvalidParam);
        }
        if align == POOL_ALIGN {
            return Ok(Placement::Pool);
        }
        let forward = !self.flip;
        self.flip = forward;
        if forward {
            proof {
                lemma_align_up(self.front as int, align as int);
            }
            let aligned = match checked_align_up(self.front, align) {
                Some(a) => a,
                None => {
                    return Err(AllocError::MemoryOverlap);
                },
            };
            let new_front = match aligned.checked_add(size) {
                Some(p) => p,
                None => {
                    return Err(AllocError::MemoryOverlap);
                },
            };
            if new_front > self.back {
                return Err(AllocError::MemoryOverlap);
            }
            self.front = new_front;
            Ok(Placement::Bump(aligned))
        } else {
            let aligned = align_down(self.back, align);
            let new_back = match aligned.checked_sub(size) {
                Some(p) => p,
                None => {
                    return Err(AllocError::MemoryOverlap);
                },
            };
            if new_back < self.front {
                return Err(AllocError::MemoryOverlap);
            }
            proof {
                lemma_sub_mod_noop(
                    spec_align_down(self.back as int, align as int),
                    size as int,
                    align as int,
                );
                lemma_small_mod(0nat, align as nat);
            }
            self.back = new_back;
            Ok(Placement::Bump(new_back))
        }
    }

    /// Free one allocation.
    ///
    /// A pool-class triple is reported back for delegation to the pooled
    /// sub-allocator (`true`) and leaves this state untouched. In the bump
    /// zone only the most recently placed forward-side block can be
    /// reclaimed: when the freed block is exactly the block at the head of
    /// the forward side, the forward cursor resets to the bump-zone start;
    /// any other forward-side free, and every backward-side free, is a
    /// silent no-op by policy. The caller guarantees the triple matches a
    /// prior successful [`Self::allocate`]; it is otherwise not validated.
    pub fn deallocate(&mut self, pos: usize, size: usize, align: usize) -> (to_pool: bool)
        requires
            old(self).wf(),
            old(self).is_active(),
        ensures
            final(self).wf(),
            to_pool == (align == POOL_ALIGN),
            align == POOL_ALIGN ==> *final(self) == *old(self),
            align != POOL_ALIGN ==> final(self).front == if pos < old(self).back && old(
                self,
            ).front - old(self).bump_start == size {
                old(self).bump_start
            } else {
                old(self).front
            },
            final(self).pool_start == old(self).pool_start,
            final(self).bump_start == old(self).bump_start,
            final(self).back == old(self).back,
            final(self).region_end == old(self).region_end,
            final(self).flip == old(self).flip,
    {
        if align == POOL_ALIGN {
            return true;
        }
        if pos < self.back && self.front - self.bump_start == size {
            self.front = self.bump_start;
        }
        false
    }

    /// Total bytes of the bump zone; the pool zone is accounted separately
    /// as permanently reserved.
    pub fn total_bytes(&self) -> (r: usize)
        requires
            self.wf(),
        ensures
            r == self.spec_total_bytes(),
    {
        self.region_end - self.bump_start
    }

    /// Bytes committed on both sides of the bump zone.
    pub fn used_bytes(&self) -> (r: usize)
        requires
            self.wf(),
        ensures
            r == self.spec_used_bytes(),
    {
        (self.region_end - self.back) + (self.front - self.bump_start)
    }

    /// Bytes left between the two bump cursors.
    pub fn available_bytes(&self) -> (r: usize)
        requires
            self.wf(),
        ensures
            r == self.spec_available_bytes(),
    {
        self.back - self.front
    }
}

/// Accounting law: after every operation,
/// `total_bytes() == used_bytes() + available_bytes()`.
pub proof fn lemma_bump_accounting(a: LabByteAllocator)
    requires
        a.wf(),
    ensures
        a.spec_total_bytes() == a.spec_used_bytes() + a.spec_available_bytes(),
{
}

/// Cursor law: the forward cursor never passes the backward cursor; an
/// operation that would make them cross fails with `MemoryOverlap` instead
/// (see [`LabByteAllocator::allocate`]) and leaves both unchanged.
pub proof fn lemma_cursors_never_cross(a: LabByteAllocator)
    requires
        a.wf(),
    ensures
        a.front <= a.back,
{
}

/// Disjointness law: the pool zone `[pool_start, bump_start)`, the
/// forward-used range `[bump_start, front)`, and the backward-used range
/// `[back, region_end)` never share an address.
pub proof fn lemma_zones_disjoint(a: LabByteAllocator, addr: int)
    requires
        a.wf(),
    ensures
        !(a.pool_start <= addr < a.bump_start && a.bump_start <= addr < a.region_end),
        !(a.bump_start <= addr < a.front && a.back <= addr < a.region_end),
        !(a.pool_start <= addr < a.bump_start && a.back <= addr < a.region_end),
{
}

} // verus!
