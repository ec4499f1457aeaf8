use mem_util::allocator::{BumpAllocator, LockedAllocator};
use mem_util::core_locals::{CoreInterruptState, CoreLocals};
use mem_util::types::CoreId;

#[test]
fn bump_allocates_downwards_with_alignment() {
    let mut b = BumpAllocator::new();
    assert_eq!(b.allocate(8, 8), 0);
    b.init(0x1000, 0x100);
    assert_eq!(b.allocate(0x10, 8), 0x10f0);
    assert_eq!(b.allocate(3, 4), 0x10ec);
    assert_eq!(b.allocate(5, 16), 0x10e0);
    assert!(b.is_last_allocation(0x10e0));
    assert_eq!(b.allocate(0x1000, 8), 0);
}

#[test]
fn bump_reuses_last_block_and_resets_when_empty() {
    let mut b = BumpAllocator::default();
    b.init(0x2000, 0x40);
    let first = b.allocate(0x10, 8);
    let second = b.allocate(0x10, 8);
    assert_eq!((first, second), (0x2030, 0x2020));
    b.deallocate(second, 0x10);
    assert_eq!(b.allocate(0x10, 8), 0x2020);
    // Freeing an older block leaks it until every block is gone.
    b.deallocate(first, 0x10);
    assert_eq!(b.allocate(0x8, 8), 0x2018);
    b.deallocate(0x2018, 0x8);
    // The last live block is also the most recent one: its bytes come back,
    // while the block leaked above stays leaked.
    b.deallocate(0x2020, 0x10);
    assert_eq!(b.allocate(0x40, 8), 0);
    assert_eq!(b.allocate(0x30, 8), 0x2000);
}

#[test]
fn bump_resets_when_the_last_live_block_is_not_the_newest() {
    let mut b = BumpAllocator::new();
    b.init(0x2000, 0x40);
    let a = b.allocate(0x10, 8);
    let c = b.allocate(4, 16);
    assert_eq!((a, c), (0x2030, 0x2020));
    // Giving back the newest block moves the pointer up by its size only.
    b.deallocate(c, 4);
    assert!(b.is_last_allocation(0x2024));
    // The last live block is below the pointer: the whole range comes back.
    b.deallocate(a, 0x10);
    assert_eq!(b.allocate(0x40, 8), 0x2000);
}

#[test]
fn bump_runs_out_below_start() {
    let mut b = BumpAllocator::new();
    b.init(0x100, 0x20);
    assert_eq!(b.allocate(0x18, 16), 0x100);
    assert_eq!(b.allocate(1, 1), 0);
}

#[test]
fn locked_allocator_serializes_through_the_lock() {
    let mut a = CoreInterruptState::new(CoreLocals::for_core(CoreId(0)));
    let mut bump = BumpAllocator::new();
    bump.init(0x4000, 0x100);
    let mut locked = LockedAllocator::new(bump);
    assert!(locked.inner().is_unlocked());
    let p = locked.allocate(0x20, 16, &mut a);
    assert_eq!(p, 0x40e0);
    assert!(locked.inner().is_unlocked());
    locked.deallocate(p, 0x20, &mut a);
    assert_eq!(locked.allocate(0x100, 16, &mut a), 0x4000);
    assert_eq!(locked.allocate(1, 1, &mut a), 0);
    let mut s = String::new();
    locked.inner_mut().write_state(&mut s);
    assert_eq!(s, "[TicketLock(c: 4, n: 4, o: 65535)]");
}
