use mem_util::core_locals::{CoreInterruptState, CoreLocals};
use mem_util::sync::lock_cell::{
    LockCell, LockCellGuard, LockCellInternal, ReadCellGuard, RwCellInternal, RwLockCell, UnwrapLockCell,
    UnwrapTicketLock,
};
use mem_util::sync::ticket_lock::{RwTicketLock, TicketLock};
use mem_util::types::CoreId;

fn sim_core(id: u8) -> CoreInterruptState {
    CoreInterruptState::new(CoreLocals::for_core(CoreId(id)))
}

fn add_through<L: LockCell<u32>>(lock: &mut L, is: &mut CoreInterruptState, n: u32) -> u32 {
    let g = LockCell::lock(lock, is);
    assert!(!LockCellInternal::is_unlocked(lock));
    *LockCellInternal::get_mut(lock, &g) += n;
    let v = *LockCellInternal::get(lock, &g);
    LockCellInternal::unlock(lock, g, is);
    assert!(LockCellInternal::is_unlocked(lock));
    v
}

#[test]
fn every_lock_cell_serves_the_same_interface() {
    let mut a = sim_core(0);
    let mut t = TicketLock::new(1u32);
    assert_eq!(add_through(&mut t, &mut a, 2), 3);
    let mut rw = RwTicketLock::new(10u32);
    assert_eq!(add_through(&mut rw, &mut a, 5), 15);
    let mut u = UnwrapLockCell::new(TicketLock::new(Some(100u32)));
    assert_eq!(add_through(&mut u, &mut a, 1), 101);
    assert!(LockCellInternal::is_preemtable(&u));
}

#[test]
fn trait_try_lock_and_force_unlock() {
    let mut a = sim_core(0);
    let mut t = TicketLock::new_non_preemtable(0u8);
    let g = LockCell::try_lock(&mut t, &mut a).expect("free lock");
    assert!(LockCell::try_lock(&mut t, &mut a).is_none());
    std::mem::forget(g);
    LockCellInternal::force_unlock(&mut t, &mut a);
    assert!(LockCellInternal::is_unlocked(&t));
    assert!(!LockCellInternal::is_preemtable(&t));
}

#[test]
fn trait_readers_and_writer() {
    let mut a = sim_core(0);
    let mut rw = RwTicketLock::new(7u8);
    let r = RwLockCell::read(&mut rw, &mut a);
    assert!(RwCellInternal::open_to_read(&rw));
    assert!(LockCell::try_lock(&mut rw, &mut a).is_none());
    RwCellInternal::release_read(&mut rw, r, &mut a);
    let w = RwLockCell::write(&mut rw, &mut a);
    assert!(!RwCellInternal::open_to_read(&rw));
    LockCellInternal::unlock(&mut rw, w, &mut a);
    let r = RwLockCell::read(&mut rw, &mut a);
    std::mem::forget(r);
    RwCellInternal::force_release_read(&mut rw, &mut a);
    assert!(LockCellInternal::is_unlocked(&rw));
}

#[test]
fn default_unwrap_cell_starts_empty() {
    let mut a = sim_core(0);
    let mut u: UnwrapTicketLock<u32> = UnwrapTicketLock::default();
    let g = u.lock_uninit(&mut a);
    assert_eq!(*u.get_uninit_mut(&g), None);
    *u.get_uninit_mut(&g) = Some(5);
    u.unlock(g, &mut a);
    assert_eq!(add_through(&mut u, &mut a, 5), 10);
}

#[test]
fn unwrap_cell_over_a_read_write_lock() {
    let mut a = sim_core(0);
    let mut b = sim_core(1);
    let mut u = UnwrapLockCell::new(RwTicketLock::new(None::<u32>));
    let g = u.lock_uninit(&mut a);
    *u.get_uninit_mut(&g) = Some(41);
    LockCellInternal::unlock(&mut u, g, &mut a);
    let r1 = RwLockCell::read(&mut u, &mut a);
    let r2 = RwLockCell::read(&mut u, &mut b);
    assert!(RwCellInternal::open_to_read(&u));
    assert!(LockCell::try_lock(&mut u, &mut a).is_none());
    RwCellInternal::release_read(&mut u, r1, &mut a);
    RwCellInternal::release_read(&mut u, r2, &mut b);
    let w = RwLockCell::write(&mut u, &mut b);
    *LockCellInternal::get_mut(&mut u, &w) += 1;
    assert_eq!(*LockCellInternal::get(&u, &w), 42);
    assert!(!RwCellInternal::open_to_read(&u));
    LockCellInternal::unlock(&mut u, w, &mut b);
    let r = RwLockCell::read(&mut u, &mut a);
    std::mem::forget(r);
    RwCellInternal::force_release_read(&mut u, &mut a);
    assert!(LockCellInternal::is_unlocked(&u));
}

#[test]
fn guards_built_for_a_lock_cell_keep_their_acquisition() {
    let mut seen = 0;
    let g = LockCellGuard::new(3).also(|_| seen += 1);
    assert_eq!(seen, 1);
    let mut a = sim_core(0);
    let mut t = TicketLock::new(0u8);
    let real = t.lock(&mut a);
    std::mem::forget(real);
    // The lock's holder drew ticket 0, so a guard for ticket 3 is not its guard;
    // the lock is released through the panic path instead.
    drop(g);
    t.force_unlock(&mut a);
    assert!(t.is_unlocked());
    let _r = ReadCellGuard::new();
}
