use mem_util::core_locals::{CoreInterruptState, CoreLocals};
use mem_util::sync::lock_cell::{LockCell, LockCellInternal, UnwrapLockCell, UnwrapTicketLock};
use mem_util::sync::ticket_lock::{RwTicketLock, TicketLock};
use mem_util::types::CoreId;

fn sim_core(id: u8) -> CoreInterruptState {
    CoreInterruptState::new(CoreLocals::for_core(CoreId(id)))
}

#[test]
fn readers_share_and_writers_exclude() {
    let mut a = sim_core(0);
    let mut b = sim_core(1);
    let mut lock = RwTicketLock::new(5u32);
    assert!(lock.is_unlocked());
    assert!(lock.is_preemtable());
    let r1 = lock.read(&mut a);
    let r2 = lock.read(&mut b);
    assert_eq!(*lock.get(), 5);
    assert!(!lock.is_unlocked());
    assert!(lock.open_to_read());
    assert!(lock.try_lock(&mut a).is_none());
    lock.release_read(r1, &mut a);
    assert!(lock.try_lock(&mut a).is_none());
    lock.release_read(r2, &mut b);
    assert!(lock.is_unlocked());
    let w = lock.write(&mut a);
    assert!(!lock.open_to_read());
    assert!(lock.try_lock(&mut b).is_none());
    *lock.get_mut(&w) = 9;
    lock.unlock(w, &mut a);
    assert!(lock.is_unlocked());
    assert!(lock.open_to_read());
    let r = lock.read(&mut b);
    assert_eq!(*lock.get(), 9);
    lock.release_read(r, &mut b);
}

#[test]
fn reads_never_touch_interrupts() {
    let mut locals = CoreLocals::for_core(CoreId(0));
    assert!(locals.enable_interrupts());
    let mut a = CoreInterruptState::new(locals);
    let mut lock = RwTicketLock::new_non_preemtable(0u8);
    assert!(!lock.is_preemtable());
    let r = lock.read(&mut a);
    assert!(a.locals.interrupts_enabled());
    lock.release_read(r, &mut a);
    assert!(a.locals.interrupts_enabled());
    let w = lock.lock(&mut a);
    assert!(!a.locals.interrupts_enabled());
    lock.unlock(w, &mut a);
    assert!(a.locals.interrupts_enabled());
}

#[test]
fn rw_force_release_and_force_unlock() {
    let mut a = sim_core(0);
    let mut lock: RwTicketLock<u8> = RwTicketLock::default();
    let r = lock.read(&mut a);
    std::mem::forget(r);
    lock.force_release_read(&mut a);
    assert!(lock.is_unlocked());
    let w = lock.lock(&mut a);
    std::mem::forget(w);
    lock.force_unlock(&mut a);
    assert!(lock.is_unlocked());
    let d: RwTicketLock<u8> = RwTicketLock::default_non_preemtable();
    assert!(!d.is_preemtable());
}

#[test]
fn unwrap_cell_is_filled_once_then_locked() {
    let mut a = sim_core(0);
    let mut cell: UnwrapTicketLock<String> = UnwrapTicketLock::new_uninit();
    assert!(cell.is_unlocked());
    assert!(cell.is_preemtable());
    let g = cell.lock_uninit(&mut a);
    assert!(cell.get_uninit_mut(&g).is_none());
    *cell.get_uninit_mut(&g) = Some(String::from("ready"));
    cell.unlock(g, &mut a);
    let g = cell.lock(&mut a);
    assert_eq!(cell.get(&g), "ready");
    cell.get_mut(&g).push('!');
    cell.unlock(g, &mut a);
    let g = cell.try_lock(&mut a).expect("free cell");
    assert_eq!(cell.get(&g), "ready!");
    assert!(cell.try_lock(&mut a).is_none());
    cell.force_unlock(&mut a);
    assert!(cell.is_unlocked());
}

#[test]
fn unwrap_cell_over_a_given_lock() {
    let mut a = sim_core(0);
    let mut cell = UnwrapLockCell::new(TicketLock::new(Some(3u32)));
    let g = cell.lock(&mut a);
    *cell.get_mut(&g) += 1;
    assert_eq!(*cell.get(&g), 4);
    cell.unlock(g, &mut a);
    let np: UnwrapTicketLock<u32> = UnwrapTicketLock::new_non_preemtable_uninit();
    assert!(!np.is_preemtable());
}
