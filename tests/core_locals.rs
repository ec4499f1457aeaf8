use mem_util::core_locals::{
    get_ready_core_count, get_started_core_count, AutoRefCounter, CoreBoot, CoreInterruptState, CoreLocals,
};
use mem_util::sync::ticket_lock::TicketLock;
use mem_util::sync::InterruptState;
use mem_util::types::CoreId;

#[test]
fn auto_ref_counter_counts_guards() {
    let mut c = AutoRefCounter::new(2);
    assert_eq!(c.count(), 2);
    let g = c.increment();
    assert_eq!(c.count(), 3);
    c.release(g);
    assert_eq!(c.count(), 2);
    assert_eq!(AutoRefCounter::default().count(), 0);
}

#[test]
fn core_id_basics() {
    assert!(CoreId(0).is_bsp());
    assert!(!CoreId(3).is_bsp());
    assert_eq!(CoreId::from(9u8), CoreId(9));
    assert_eq!(u8::from(CoreId(9)), 9);
}

#[test]
fn fresh_locals_keep_interrupts_disabled() {
    let l = CoreLocals::new();
    assert_eq!(l.core_id, CoreId(0));
    assert!(l.is_bsp());
    assert!(!l.in_interrupt());
    assert!(!l.in_exception());
    assert!(!l.interrupts_enabled());
    assert!(!CoreLocals::default().interrupts_enabled());
}

#[test]
fn nested_critical_sections_reenable_only_at_the_outermost() {
    let mut l = CoreLocals::for_core(CoreId(1));
    assert!(l.enable_interrupts());
    assert!(l.interrupts_enabled());
    l.disable_interrupts();
    l.disable_interrupts();
    assert!(!l.enable_interrupts());
    assert!(!l.interrupts_enabled());
    assert!(l.enable_interrupts());
    assert!(l.interrupts_enabled());
}

#[test]
fn releasing_inside_an_interrupt_leaves_interrupts_off() {
    let mut l = CoreLocals::for_core(CoreId(1));
    assert!(l.enable_interrupts());
    let g = l.inc_interrupt();
    assert!(l.in_interrupt());
    l.disable_interrupts();
    assert!(!l.enable_interrupts());
    assert!(l.interrupts_enabled());
    l.dec_interrupt(g);
    assert!(!l.in_interrupt());
    let e = l.inc_exception();
    assert!(l.in_exception());
    l.dec_exception(e);
    assert!(!l.in_exception());
}

#[test]
fn interrupt_state_brackets_critical_sections() {
    let mut s = CoreInterruptState::new(CoreLocals::for_core(CoreId(2)));
    assert_eq!(s.core_id(), CoreId(2));
    assert!(!s.in_interrupt());
    assert!(!s.in_exception());
    s.exit_critical_section(true);
    assert!(s.locals.interrupts_enabled());
    s.enter_critical_section(true);
    assert!(!s.locals.interrupts_enabled());
    s.enter_critical_section(false);
    s.exit_critical_section(false);
    assert!(!s.locals.interrupts_enabled());
    s.exit_critical_section(true);
    assert!(s.locals.interrupts_enabled());
}

#[test]
fn cores_boot_one_at_a_time_in_id_order() {
    let mut boot = CoreBoot::new();
    let ids: Vec<CoreId> = (0..3).map(|_| boot.claim_core_id()).collect();
    assert_eq!(ids, vec![CoreId(0), CoreId(1), CoreId(2)]);
    assert_eq!(get_started_core_count(&boot), 3);
    assert_eq!(get_ready_core_count(&boot), 0);
    // Core 1 and 2 must wait for core 0.
    assert!(boot.try_enter_boot(CoreId(1)).is_none());
    assert!(boot.try_enter_boot(CoreId(2)).is_none());
    let l0 = boot.try_enter_boot(CoreId(0)).expect("core 0 boots first");
    assert_eq!(l0.core_id, CoreId(0));
    assert!(!l0.interrupts_enabled());
    // Nobody else gets in while core 0 is inside, not even core 0 again.
    assert!(boot.try_enter_boot(CoreId(0)).is_none());
    assert!(boot.try_enter_boot(CoreId(1)).is_none());
    let perm0 = boot.init(CoreId(0));
    assert_eq!(perm0.core_id, CoreId(0));
    assert_eq!(get_ready_core_count(&boot), 1);
    assert!(boot.try_enter_boot(CoreId(2)).is_none());
    let l1 = boot.try_enter_boot(CoreId(1)).expect("core 1 boots second");
    assert_eq!(l1.core_id, CoreId(1));
    let perm1 = boot.init(CoreId(1));
    assert!(!perm1.is_bsp());
    let _ = boot.try_enter_boot(CoreId(2)).expect("core 2 boots last");
    boot.init(CoreId(2));
    assert_eq!(get_ready_core_count(&boot), 3);
    // A core that has not claimed an id yet cannot enter.
    assert!(boot.try_enter_boot(CoreId(3)).is_none());
}

#[test]
fn simulated_boot_never_has_two_cores_inside() {
    const CORES: u8 = 6;
    let mut boot = CoreBoot::new();
    let mut claimed: Vec<Option<CoreId>> = vec![None; CORES as usize];
    let mut inside: Vec<bool> = vec![false; CORES as usize];
    let mut done = 0;
    let mut seed: u64 = 12345;
    let mut order = Vec::new();
    while done < CORES {
        seed = seed.wrapping_mul(6364136223846793005).wrapping_add(1442695040888963407);
        let i = ((seed >> 33) % CORES as u64) as usize;
        match claimed[i] {
            None => claimed[i] = Some(boot.claim_core_id()),
            Some(id) if inside[i] => {
                boot.init(id);
                inside[i] = false;
                done += 1;
            }
            Some(id) => {
                if !order.contains(&id) && boot.try_enter_boot(id).is_some() {
                    inside[i] = true;
                    order.push(id);
                }
            }
        }
        assert!(inside.iter().filter(|x| **x).count() <= 1);
    }
    let mut ids: Vec<u8> = claimed.iter().map(|c| c.unwrap().0).collect();
    ids.sort();
    assert_eq!(ids, (0..CORES).collect::<Vec<u8>>());
    assert_eq!(order, (0..CORES).map(CoreId).collect::<Vec<CoreId>>());
}

#[test]
fn nested_non_preemtable_locks_switch_interrupts_on_only_at_the_end() {
    use_locks_nested(false);
    use_locks_nested(true);
}

fn use_locks_nested(in_interrupt: bool) {
    let mut locals = CoreLocals::for_core(CoreId(0));
    assert!(locals.enable_interrupts());
    assert!(locals.cpu_interrupts_on());
    let irq = if in_interrupt { Some(locals.inc_interrupt()) } else { None };
    let mut s = CoreInterruptState::new(locals);
    let mut outer = TicketLock::new_non_preemtable(1u8);
    let mut inner = TicketLock::new_non_preemtable(2u8);
    let go = outer.lock(&mut s);
    assert!(!s.locals.cpu_interrupts_on());
    let gi = inner.lock(&mut s);
    inner.unlock(gi, &mut s);
    assert!(!s.locals.cpu_interrupts_on());
    outer.unlock(go, &mut s);
    assert!(s.locals.interrupts_enabled());
    // Inside an interrupt handler the flag is left for the interrupt return to restore.
    assert_eq!(s.locals.cpu_interrupts_on(), !in_interrupt);
    if let Some(g) = irq {
        s.locals.dec_interrupt(g);
    }
}
