//! Early-boot memory allocators.
//!
//! Two bump-style allocators cover the window before a general-purpose heap
//! exists:
//!
//! - [`EarlyAllocator`](early::EarlyAllocator): a double-ended region that
//!   hands out raw bytes growing forward from the start and whole pages
//!   growing backward from the end.
//! - [`LabByteAllocator`](dual::LabByteAllocator): a dual-arena byte
//!   allocator that routes one alignment class to a pooled sub-allocator and
//!   everything else into a double-ended bump zone with alternating sides.
//!
//! Neither allocator touches the memory it manages (the pooled sub-allocator
//! does); both work purely on addresses, so all cursor arithmetic is verified:
//! cursors never cross, zones never overlap, and the accounting identity
//! `total == used + available` holds after every operation.

use vstd::prelude::*;

pub mod addr;
pub mod dual;
pub mod early;

verus! {

/// Size in bytes of one memory page.
pub const PAGE_SIZE: usize = 4096;

/// Errors returned by allocator operations.
///
/// No operation panics: every failure is reported to the caller as one of
/// these variants.
#[derive(Clone, Copy, PartialEq, Eq, Structural, Debug)]
pub enum AllocError {
    /// A zero-sized request, or a computed address that cannot be
    /// represented as a non-null pointer.
    InvalidParam,
    /// The pooled sub-allocator (or the page arena) has no room left.
    NoMemory,
    /// Committing the request would make the bump cursors cross.
    MemoryOverlap,
    /// The allocator manages exactly one contiguous region and cannot be
    /// extended.
    Unsupported,
}

} // verus!
