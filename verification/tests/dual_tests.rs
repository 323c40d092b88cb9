use bump_allocator::dual::{LabByteAllocator, Placement, POOL_ALIGN};
use bump_allocator::AllocError;

fn active() -> LabByteAllocator {
    let mut d = LabByteAllocator::new();
    d.init(0x1000, 0x4000, 0x800, 0x5000);
    d
}

#[test]
fn dual_new_is_all_zero() {
    let d = LabByteAllocator::new();
    assert_eq!(d.pool_start, 0);
    assert_eq!(d.bump_start, 0);
    assert_eq!(d.front, 0);
    assert_eq!(d.back, 0);
    assert_eq!(d.region_end, 0);
    assert!(!d.flip);
}

#[test]
fn init_carves_pool_and_bump_zones() {
    let d = active();
    assert_eq!(d.pool_start, 0x1000);
    assert_eq!(d.bump_start, 0x1800);
    assert_eq!(d.front, 0x1800);
    assert_eq!(d.back, 0x5000);
    assert_eq!(d.region_end, 0x5000);
}

#[test]
fn pool_class_requests_are_delegated() {
    let mut d = active();
    assert_eq!(POOL_ALIGN, 8);
    assert_eq!(d.allocate(16, 8), Ok(Placement::Pool));
    // Pool routing never moves the bump cursors.
    assert_eq!(d.front, 0x1800);
    assert_eq!(d.back, 0x5000);
    assert!(d.deallocate(0x1234, 16, 8));
    assert_eq!(d.front, 0x1800);
    assert_eq!(d.back, 0x5000);
}

#[test]
fn non_pool_requests_alternate_sides() {
    let mut d = active();
    let a1 = d.allocate(64, 16).unwrap();
    assert_eq!(a1, Placement::Bump(0x1800));
    assert_eq!((d.front, d.back), (0x1840, 0x5000));
    let a2 = d.allocate(64, 16).unwrap();
    assert_eq!(a2, Placement::Bump(0x4FC0));
    assert_eq!((d.front, d.back), (0x1840, 0x4FC0));
    let a3 = d.allocate(64, 16).unwrap();
    assert_eq!(a3, Placement::Bump(0x1840));
    assert_eq!((d.front, d.back), (0x1880, 0x4FC0));
    let a4 = d.allocate(64, 16).unwrap();
    assert_eq!(a4, Placement::Bump(0x4F80));
    assert_eq!((d.front, d.back), (0x1880, 0x4F80));
}

#[test]
fn pool_class_requests_do_not_toggle_the_side() {
    let mut d = active();
    assert_eq!(d.allocate(64, 16), Ok(Placement::Bump(0x1800)));
    assert_eq!(d.allocate(16, 8), Ok(Placement::Pool));
    // The next non-pool request still goes to the backward side.
    assert_eq!(d.allocate(64, 16), Ok(Placement::Bump(0x4FC0)));
}

#[test]
fn zero_size_request_is_invalid_param() {
    let mut d = active();
    assert_eq!(d.allocate(0, 8), Err(AllocError::InvalidParam));
    assert_eq!(d.allocate(0, 16), Err(AllocError::InvalidParam));
    assert_eq!((d.front, d.back), (0x1800, 0x5000));
}

#[test]
fn overlap_fails_and_leaves_cursors_unchanged() {
    let mut d = LabByteAllocator::new();
    // Bump zone holds 0x800 bytes: [0x1800, 0x2000).
    d.init(0x1000, 0x1000, 0x800, 0x2000);
    assert_eq!(d.available_bytes(), 0x800);
    assert_eq!(d.allocate(0x900, 16), Err(AllocError::MemoryOverlap));
    assert_eq!((d.front, d.back), (0x1800, 0x2000));
    // The side toggle advanced, so the next failure is on the backward side.
    assert_eq!(d.allocate(0x900, 16), Err(AllocError::MemoryOverlap));
    assert_eq!((d.front, d.back), (0x1800, 0x2000));
    // A fitting request still succeeds afterward.
    assert_eq!(d.allocate(0x100, 16), Ok(Placement::Bump(0x1800)));
}

#[test]
fn dual_accounting_identity_holds_after_every_operation() {
    let mut d = active();
    assert_eq!(d.total_bytes(), 0x5000 - 0x1800);
    assert_eq!(d.total_bytes(), d.used_bytes() + d.available_bytes());
    d.allocate(64, 16).unwrap();
    assert_eq!(d.total_bytes(), d.used_bytes() + d.available_bytes());
    d.allocate(64, 16).unwrap();
    assert_eq!(d.total_bytes(), d.used_bytes() + d.available_bytes());
    d.deallocate(0x1800, 64, 16);
    assert_eq!(d.total_bytes(), d.used_bytes() + d.available_bytes());
    assert_eq!(d.used_bytes(), 0x5000 - 0x4FC0);
}

#[test]
fn bump_addresses_lie_in_the_bump_zone() {
    let mut d = active();
    for _ in 0..8 {
        match d.allocate(96, 32) {
            Ok(Placement::Bump(a)) => {
                assert!(a >= d.bump_start);
                assert!(a + 96 <= d.region_end);
            }
            other => panic!("unexpected placement: {:?}", other),
        }
    }
}

#[test]
fn forward_side_addresses_are_aligned() {
    let mut d = LabByteAllocator::new();
    d.init(0x1001, 0x4000, 0x7FF, 0x5001);
    // bump_start = 0x1800; forward requests are aligned up from the cursor.
    assert_eq!(d.allocate(10, 16), Ok(Placement::Bump(0x1800)));
    assert_eq!(d.front, 0x180A);
    assert_eq!(d.allocate(16, 4), Ok(Placement::Bump(0x5000 - 16)));
    assert_eq!(d.allocate(10, 16), Ok(Placement::Bump(0x1810)));
}

#[test]
fn most_recent_forward_block_is_reclaimed() {
    let mut d = active();
    assert_eq!(d.allocate(64, 16), Ok(Placement::Bump(0x1800)));
    assert_eq!(d.front, 0x1840);
    assert!(!d.deallocate(0x1800, 64, 16));
    assert_eq!(d.front, 0x1800);
}

#[test]
fn other_forward_frees_are_noops() {
    let mut d = active();
    d.allocate(64, 16).unwrap();
    d.allocate(32, 16).unwrap();
    // flip is now false again; two forward blocks are outstanding.
    d.allocate(32, 16).unwrap();
    let front = d.front;
    assert!(!d.deallocate(0x1800, 64, 16));
    assert_eq!(d.front, front);
}

#[test]
fn backward_frees_are_noops() {
    let mut d = active();
    d.allocate(64, 16).unwrap();
    assert_eq!(d.allocate(64, 16), Ok(Placement::Bump(0x4FC0)));
    let before = (d.front, d.back);
    assert!(!d.deallocate(0x4FC0, 64, 16));
    assert_eq!((d.front, d.back), before);
}

#[test]
fn dual_add_memory_is_unsupported() {
    let mut d = active();
    assert_eq!(d.add_memory(0x8000, 0x1000), Err(AllocError::Unsupported));
    assert_eq!((d.front, d.back), (0x1800, 0x5000));
}
