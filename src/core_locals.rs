//! Per-core data: interrupt and exception nesting, the interrupt-disable
//! reference count, and the handshake that lets cores boot one at a time.

use crate::sync::InterruptState;
use crate::types::CoreId;
use vstd::prelude::*;

verus! {

/// The largest number of cores that can be registered.
pub const MAX_CORES: u8 = 255;

/// A reference counter whose increments are each matched by a guard.
///
/// [`AutoRefCounter::increment`] hands out an [`AutoRefCounterGuard`]; giving
/// the guard back to [`AutoRefCounter::release`] undoes the increment.
#[derive(Debug)]
pub struct AutoRefCounter(u64);

/// The obligation to undo one increment of an [`AutoRefCounter`].
pub struct AutoRefCounterGuard {
    depth: u64,
}

impl AutoRefCounterGuard {
    /// The counter's value right after the increment that produced this guard.
    pub closed spec fn depth(&self) -> u64 {
        self.depth
    }
}

impl AutoRefCounter {
    /// The current count.
    pub closed spec fn value(&self) -> u64 {
        self.0
    }

    /// Creates a new [`AutoRefCounter`] starting at `init`.
    pub fn new(init: u64) -> (r: Self)
        ensures
            r.value() == init,
    {
        AutoRefCounter(init)
    }

    /// Returns the current count.
    pub fn count(&self) -> (r: u64)
        ensures
            r == self.value(),
    {
        self.0
    }

    /// Increments the count and returns the guard that undoes it.
    pub fn increment(&mut self) -> (g: AutoRefCounterGuard)
        requires
            old(self).value() < u64::MAX,
        ensures
            final(self).value() == old(self).value() + 1,
            g.depth() == final(self).value(),
    {
        self.0 = self.0 + 1;
        AutoRefCounterGuard { depth: self.0 }
    }

    /// Undoes the increment that produced `guard`.
    pub fn release(&mut self, guard: AutoRefCounterGuard)
        requires
            old(self).value() > 0,
        ensures
            final(self).value() == old(self).value() - 1,
    {
        self.0 = self.0 - 1;
    }
}

impl Default for AutoRefCounter {
    fn default() -> (r: Self)
        ensures
            r.value() == 0,
    {
        Self::new(0)
    }
}

/// Data that is local to one core.
///
/// There is exactly one record per core that has run through the boot
/// sequence, plus the transient record that a core uses while it boots.
#[derive(Debug)]
pub struct CoreLocals {
    /// This core's unique id.
    pub core_id: CoreId,
    /// Current depth of nested interrupts; above zero inside an interrupt handler.
    interrupt_depth: AutoRefCounter,
    /// Current depth of nested exceptions; above zero inside an exception handler.
    exception_depth: AutoRefCounter,
    /// Outstanding requests to keep interrupts disabled.
    interrupts_disable_count: u64,
    /// Whether this record has last switched the CPU's interrupts on.
    interrupts_on: bool,
}

impl CoreLocals {
    /// This core's id.
    pub closed spec fn id(&self) -> CoreId {
        self.core_id
    }

    /// Current interrupt nesting depth.
    pub closed spec fn interrupt_depth(&self) -> u64 {
        self.interrupt_depth.value()
    }

    /// Current exception nesting depth.
    pub closed spec fn exception_depth(&self) -> u64 {
        self.exception_depth.value()
    }

    /// Outstanding requests to keep interrupts disabled.
    pub closed spec fn disable_count(&self) -> u64 {
        self.interrupts_disable_count
    }

    /// Whether the CPU's interrupts are switched on, as far as this record has switched them.
    pub closed spec fn interrupts_on(&self) -> bool {
        self.interrupts_on
    }

    /// A record for `core_id` as it stands at boot: no nesting, and one request
    /// to keep interrupts disabled, since no interrupt handler exists yet.
    pub open spec fn is_fresh_for(&self, core_id: CoreId) -> bool {
        &&& self.id() == core_id
        &&& self.interrupt_depth() == 0
        &&& self.exception_depth() == 0
        &&& self.disable_count() == 1
        &&& !self.interrupts_on()
    }

    /// `after` is `before` with one more request to keep interrupts disabled,
    /// and interrupts switched off.
    pub open spec fn disabled_from(after: CoreLocals, before: CoreLocals) -> bool {
        &&& after.disable_count() == before.disable_count() + 1
        &&& !after.interrupts_on()
        &&& after.interrupt_depth() == before.interrupt_depth()
        &&& after.exception_depth() == before.exception_depth()
        &&& after.id() == before.id()
    }

    /// `after` is `before` with one request to keep interrupts disabled
    /// withdrawn; interrupts are switched on when that was the last request
    /// and the core is not inside an interrupt.
    pub open spec fn enabled_from(after: CoreLocals, before: CoreLocals) -> bool {
        &&& after.disable_count() + 1 == before.disable_count()
        &&& after.interrupts_on() == (before.interrupts_on() || (before.disable_count() == 1
            && before.interrupt_depth() == 0))
        &&& after.interrupt_depth() == before.interrupt_depth()
        &&& after.exception_depth() == before.exception_depth()
        &&& after.id() == before.id()
    }

    /// Creates an empty [`CoreLocals`] record.
    pub fn new() -> (r: Self)
        ensures
            r.is_fresh_for(CoreId(0)),
    {
        Self::for_core(CoreId(0))
    }

    /// Creates an empty [`CoreLocals`] record for `core_id`.
    pub fn for_core(core_id: CoreId) -> (r: Self)
        ensures
            r.is_fresh_for(core_id),
    {
        CoreLocals {
            core_id,
            interrupt_depth: AutoRefCounter::new(0),
            exception_depth: AutoRefCounter::new(0),
            interrupts_disable_count: 1,
            interrupts_on: false,
        }
    }

    /// Increments the interrupt depth and returns a guard to decrement it again.
    pub fn inc_interrupt(&mut self) -> (g: AutoRefCounterGuard)
        requires
            old(self).interrupt_depth() < u64::MAX,
        ensures
            final(self).interrupt_depth() == old(self).interrupt_depth() + 1,
            final(self).exception_depth() == old(self).exception_depth(),
            final(self).disable_count() == old(self).disable_count(),
            final(self).interrupts_on() == old(self).interrupts_on(),
            final(self).id() == old(self).id(),
    {
        self.interrupt_depth.increment()
    }

    /// Leaves the interrupt that `guard` was handed out for.
    pub fn dec_interrupt(&mut self, guard: AutoRefCounterGuard)
        requires
            old(self).interrupt_depth() > 0,
        ensures
            final(self).interrupt_depth() == old(self).interrupt_depth() - 1,
            final(self).exception_depth() == old(self).exception_depth(),
            final(self).disable_count() == old(self).disable_count(),
            final(self).interrupts_on() == old(self).interrupts_on(),
            final(self).id() == old(self).id(),
    {
        self.interrupt_depth.release(guard)
    }

    /// Increments the exception depth and returns a guard to decrement it again.
    pub fn inc_exception(&mut self) -> (g: AutoRefCounterGuard)
        requires
            old(self).exception_depth() < u64::MAX,
        ensures
            final(self).exception_depth() == old(self).exception_depth() + 1,
            final(self).interrupt_depth() == old(self).interrupt_depth(),
            final(self).disable_count() == old(self).disable_count(),
            final(self).interrupts_on() == old(self).interrupts_on(),
            final(self).id() == old(self).id(),
    {
        self.exception_depth.increment()
    }

    /// Leaves the exception that `guard` was handed out for.
    pub fn dec_exception(&mut self, guard: AutoRefCounterGuard)
        requires
            old(self).exception_depth() > 0,
        ensures
            final(self).exception_depth() == old(self).exception_depth() - 1,
            final(self).interrupt_depth() == old(self).interrupt_depth(),
            final(self).disable_count() == old(self).disable_count(),
            final(self).interrupts_on() == old(self).interrupts_on(),
            final(self).id() == old(self).id(),
    {
        self.exception_depth.release(guard)
    }

    /// Returns `true` if this core is currently in an interrupt.
    pub fn in_interrupt(&self) -> (r: bool)
        ensures
            r == (self.interrupt_depth() > 0),
    {
        self.interrupt_depth.count() > 0
    }

    /// Returns `true` if this core is currently in an exception.
    pub fn in_exception(&self) -> (r: bool)
        ensures
            r == (self.exception_depth() > 0),
    {
        self.exception_depth.count() > 0
    }

    /// Withdraws one request to keep interrupts disabled.
    ///
    /// Interrupts are switched on only when this withdraws the last request
    /// and the core is not inside an interrupt; inside one, the return from
    /// the interrupt restores the flag instead. Returns whether interrupts
    /// were switched on by this call.
    pub fn enable_interrupts(&mut self) -> (switched_on: bool)
        requires
            old(self).disable_count() > 0,
        ensures
            switched_on == (old(self).disable_count() == 1 && old(self).interrupt_depth() == 0),
            CoreLocals::enabled_from(*final(self), *old(self)),
    {
        let old_disable_count = self.interrupts_disable_count;
        self.interrupts_disable_count = old_disable_count - 1;
        let switched_on = old_disable_count == 1 && !self.in_interrupt();
        if switched_on {
            self.interrupts_on = true;
        }
        switched_on
    }

    /// Switches interrupts off and adds one request to keep them disabled.
    pub fn disable_interrupts(&mut self)
        requires
            old(self).disable_count() < u64::MAX,
        ensures
            CoreLocals::disabled_from(*final(self), *old(self)),
    {
        self.interrupts_disable_count = self.interrupts_disable_count + 1;
        self.interrupts_on = false;
    }

    /// Returns `true` if this record has last switched the CPU's interrupts on.
    pub fn cpu_interrupts_on(&self) -> (r: bool)
        ensures
            r == self.interrupts_on(),
    {
        self.interrupts_on
    }

    /// Returns `true` if no request to keep interrupts disabled is outstanding.
    pub fn interrupts_enabled(&self) -> (r: bool)
        ensures
            r == (self.disable_count() == 0),
    {
        self.interrupts_disable_count == 0
    }

    /// Returns `true` if this core is the bootstrap processor.
    pub fn is_bsp(&self) -> (r: bool)
        ensures
            r == (self.id().0 == 0),
    {
        self.core_id.is_bsp()
    }
}

/// Balanced critical sections: disabling interrupts and then withdrawing
/// that request returns the disable count to its earlier value. Only the
/// outermost withdrawal, outside any interrupt, switches interrupts back on;
/// a nested one leaves them off.
pub proof fn critical_section_round_trip(before: CoreLocals, inside: CoreLocals, after: CoreLocals)
    requires
        CoreLocals::disabled_from(inside, before),
        CoreLocals::enabled_from(after, inside),
    ensures
        after.disable_count() == before.disable_count(),
        after.interrupt_depth() == before.interrupt_depth(),
        before.disable_count() == 0 && before.interrupt_depth() == 0 ==> after.interrupts_on(),
        before.disable_count() > 0 ==> !after.interrupts_on(),
        before.interrupt_depth() > 0 ==> !after.interrupts_on(),
{
}

impl Default for CoreLocals {
    fn default() -> (r: Self)
        ensures
            r.is_fresh_for(CoreId(0)),
    {
        Self::new()
    }
}

/// The [`InterruptState`] of one core, backed by that core's [`CoreLocals`] record.
#[derive(Debug)]
pub struct CoreInterruptState {
    /// The record of the core this state belongs to.
    pub locals: CoreLocals,
}

impl CoreInterruptState {
    /// The interrupt state of the core that owns `locals`.
    pub fn new(locals: CoreLocals) -> (r: Self)
        ensures
            r.locals == locals,
    {
        CoreInterruptState { locals }
    }
}

impl InterruptState for CoreInterruptState {
    open spec fn spec_core_id(&self) -> CoreId {
        self.locals.id()
    }

    open spec fn spec_in_interrupt(&self) -> bool {
        self.locals.interrupt_depth() > 0
    }

    open spec fn spec_in_exception(&self) -> bool {
        self.locals.exception_depth() > 0
    }

    open spec fn spec_disable_count(&self) -> nat {
        self.locals.disable_count() as nat
    }

    fn in_interrupt(&self) -> (r: bool) {
        self.locals.in_interrupt()
    }

    fn in_exception(&self) -> (r: bool) {
        self.locals.in_exception()
    }

    fn core_id(&self) -> (r: CoreId) {
        self.locals.core_id
    }

    fn enter_critical_section(&mut self, disable_interrupts: bool) {
        if disable_interrupts {
            self.locals.disable_interrupts();
        }
    }

    fn exit_critical_section(&mut self, enable_interrupts: bool) {
        if enable_interrupts {
            self.locals.enable_interrupts();
        }
    }
}

/// The boot handshake shared by all cores.
///
/// A core claims the next id with [`CoreBoot::claim_core_id`], waits until
/// [`CoreBoot::try_enter_boot`] lets it into the boot section, which admits
/// cores strictly in id order and one at a time, and leaves the section with
/// [`CoreBoot::init`], which registers the core and admits the next one.
pub struct CoreBoot {
    /// The next id to hand out; also the number of cores that have started.
    core_id_counter: u8,
    /// The number of cores that have finished booting.
    core_ready_count: u8,
    /// The id of the core that may enter the boot section next.
    boot_lock: u8,
    /// The core inside the boot section, if any.
    booting: Option<CoreId>,
    /// For each core id, whether that core has a permanent record.
    registered: Vec<bool>,
    /// The ids handed out so far, in the order they were claimed.
    issued: Ghost<Seq<CoreId>>,
}

impl CoreBoot {
    /// The number of cores that have started.
    pub closed spec fn started(&self) -> nat {
        self.core_id_counter as nat
    }

    /// The number of cores that have finished booting.
    pub closed spec fn ready(&self) -> nat {
        self.core_ready_count as nat
    }

    /// The core inside the boot section, if any.
    pub closed spec fn booting(&self) -> Option<CoreId> {
        self.booting
    }

    /// Whether core `id` has been registered with a permanent record.
    pub closed spec fn is_registered(&self, id: CoreId) -> bool {
        (id.0 as int) < self.registered@.len() && self.registered@[id.0 as int]
    }

    /// The ids handed out so far, in the order they were claimed.
    pub closed spec fn issued(&self) -> Seq<CoreId> {
        self.issued@
    }

    /// The id of the core that may enter the boot section next.
    pub closed spec fn next_to_boot(&self) -> nat {
        self.boot_lock as nat
    }

    /// Whether core `id` may enter the boot section now: it is its turn, it
    /// has claimed its id, and no core is inside.
    pub open spec fn may_enter(&self, id: CoreId) -> bool {
        &&& self.next_to_boot() == id.0 as nat
        &&& self.booting() is None
        &&& (id.0 as nat) < self.started()
    }

    /// The handshake's invariant: cores finish booting in id order, the core
    /// inside the boot section is the next one in that order, and exactly the
    /// cores that finished are registered.
    pub closed spec fn wf(&self) -> bool {
        &&& self.registered@.len() == MAX_CORES as nat
        &&& self.issued@.len() == self.core_id_counter as nat
        &&& (forall|i: int| 0 <= i < self.issued@.len() ==> (#[trigger] self.issued@[i]).0 == i)
        &&& self.core_id_counter <= MAX_CORES
        &&& self.core_ready_count == self.boot_lock
        &&& self.boot_lock <= self.core_id_counter
        &&& (forall|i: int| 0 <= i < MAX_CORES ==> (#[trigger] self.registered@[i] <==> i < self.boot_lock))
        &&& (self.booting matches Some(c) ==> c.0 == self.boot_lock && self.boot_lock < self.core_id_counter)
    }

    /// A handshake at which no core has started.
    pub fn new() -> (r: Self)
        ensures
            r.wf(),
            r.started() == 0,
            r.ready() == 0,
            r.next_to_boot() == 0,
            r.booting() is None,
            r.issued() == Seq::<CoreId>::empty(),
    {
        let mut registered: Vec<bool> = Vec::new();
        let mut i: u8 = 0;
        while i < MAX_CORES
            invariant
                i <= MAX_CORES,
                registered@.len() == i as nat,
                forall|j: int| 0 <= j < i ==> !#[trigger] registered@[j],
            decreases MAX_CORES - i,
        {
            registered.push(false);
            i = i + 1;
        }
        CoreBoot { core_id_counter: 0, core_ready_count: 0, boot_lock: 0, booting: None, registered, issued: Ghost(Seq::empty()) }
    }

    /// Claims the next sequential core id.
    pub fn claim_core_id(&mut self) -> (id: CoreId)
        requires
            old(self).wf(),
            old(self).started() < MAX_CORES,
        ensures
            final(self).wf(),
            id.0 as nat == old(self).started(),
            final(self).started() == old(self).started() + 1,
            final(self).ready() == old(self).ready(),
            final(self).next_to_boot() == old(self).next_to_boot(),
            final(self).booting() == old(self).booting(),
            final(self).issued() == old(self).issued().push(id),
            forall|c: CoreId| #[trigger] final(self).is_registered(c) == old(self).is_registered(c),
            forall|c: CoreId| old(self).may_enter(c) ==> #[trigger] final(self).may_enter(c),
    {
        let id = CoreId(self.core_id_counter);
        self.core_id_counter = self.core_id_counter + 1;
        self.issued = Ghost(self.issued@.push(id));
        id
    }

    /// One step of waiting for the boot section: core `id` enters it when it
    /// is that core's turn and no other core is inside.
    ///
    /// On entry returns the boot-time record of the core, with no nesting and
    /// interrupts kept disabled.
    pub fn try_enter_boot(&mut self, id: CoreId) -> (r: Option<CoreLocals>)
        requires
            old(self).wf(),
        ensures
            final(self).wf(),
            r is Some <==> old(self).may_enter(id),
            r matches Some(l) ==> l.is_fresh_for(id) && final(self).booting() == Some(id),
            r is None ==> *final(self) == *old(self),
            final(self).started() == old(self).started(),
            final(self).issued() == old(self).issued(),
            final(self).ready() == old(self).ready(),
            final(self).next_to_boot() == old(self).next_to_boot(),
            forall|c: CoreId| #[trigger] final(self).is_registered(c) == old(self).is_registered(c),
    {
        if self.boot_lock == id.0 && self.booting.is_none() && id.0 < self.core_id_counter {
            self.booting = Some(id);
            Some(CoreLocals::for_core(id))
        } else {
            None
        }
    }

    /// Ends the boot of core `id`, the core inside the boot section: registers
    /// it, admits the next core, and returns its permanent record, which
    /// carries over its identity.
    pub fn init(&mut self, id: CoreId) -> (r: CoreLocals)
        requires
            old(self).wf(),
            old(self).booting() == Some(id),
        ensures
            final(self).wf(),
            r.is_fresh_for(id),
            final(self).booting() is None,
            final(self).ready() == old(self).ready() + 1,
            final(self).next_to_boot() == old(self).next_to_boot() + 1,
            final(self).started() == old(self).started(),
            final(self).issued() == old(self).issued(),
            !old(self).is_registered(id),
            final(self).is_registered(id),
            forall|c: CoreId| c != id ==> #[trigger] final(self).is_registered(c) == old(self).is_registered(c),
    {
        let idx = id.0 as usize;
        self.registered.set(idx, true);
        self.boot_lock = self.boot_lock + 1;
        self.core_ready_count = self.core_ready_count + 1;
        self.booting = None;
        proof {
            assert forall|c: CoreId| c != id implies #[trigger] self.is_registered(c) == old(self).is_registered(c) by {
                assert(c.0 != id.0);
                assert(self.registered@ == old(self).registered@.update(idx as int, true));
            }
        }
        CoreLocals::for_core(id)
    }
}

/// Boot ordering: the ids handed out are unique and sequential from 0, one
/// per started core.
pub proof fn boot_ids_sequential(boot: &CoreBoot)
    requires
        boot.wf(),
    ensures
        boot.issued().len() == boot.started(),
        forall|i: int| 0 <= i < boot.issued().len() ==> (#[trigger] boot.issued()[i]).0 == i,
        forall|i: int, j: int|
            0 <= i < boot.issued().len() && 0 <= j < boot.issued().len() && i != j ==> #[trigger] boot.issued()[i]
                != #[trigger] boot.issued()[j],
{
    assert forall|i: int, j: int|
        0 <= i < boot.issued().len() && 0 <= j < boot.issued().len() && i != j implies #[trigger] boot.issued()[i]
            != #[trigger] boot.issued()[j] by {
        assert(boot.issued()[i].0 == i);
        assert(boot.issued()[j].0 == j);
    }
}

/// Boot exclusion: while a core is inside the boot section, no core may enter it.
pub proof fn boot_section_exclusive(boot: &CoreBoot, id: CoreId)
    requires
        boot.wf(),
        boot.booting() is Some,
    ensures
        !boot.may_enter(id),
{
}

/// The number of cores that have started.
pub fn get_started_core_count(boot: &CoreBoot) -> (r: u8)
    ensures
        r as nat == boot.started(),
{
    boot.core_id_counter
}

/// The number of cores that have finished booting.
pub fn get_ready_core_count(boot: &CoreBoot) -> (r: u8)
    ensures
        r as nat == boot.ready(),
{
    boot.core_ready_count
}

} // verus!
