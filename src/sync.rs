//! Synchronization primitives.

pub mod lock_cell;
pub mod ticket_lock;

use crate::types::CoreId;
use vstd::prelude::*;

verus! {

/// Access to the interrupt state of the core that is running: its nesting
/// counters, its identity, and the hooks that bracket every critical section.
///
/// A value of an implementing type stands for one core's view of that state;
/// every lock operation is handed the record of the core that performs it.
pub trait InterruptState: Sized {
    /// The id of the core this state belongs to.
    spec fn spec_core_id(&self) -> CoreId;

    /// Whether the core is servicing an interrupt.
    spec fn spec_in_interrupt(&self) -> bool;

    /// Whether the core is servicing an exception.
    spec fn spec_in_exception(&self) -> bool;

    /// The number of outstanding requests to keep interrupts disabled.
    spec fn spec_disable_count(&self) -> nat;

    /// Returns `true` if we're currently in an interrupt.
    fn in_interrupt(&self) -> (r: bool)
        ensures
            r == self.spec_in_interrupt(),
    ;

    /// Returns `true` if we're currently in an exception.
    fn in_exception(&self) -> (r: bool)
        ensures
            r == self.spec_in_exception(),
    ;

    /// The id of the running core; unique to the core.
    fn core_id(&self) -> (r: CoreId)
        ensures
            r == self.spec_core_id(),
    ;

    /// Signals that a critical section was entered (e.g. a lock was taken).
    ///
    /// With `disable_interrupts`, interrupts are disabled and the disable count
    /// grows by one; without it nothing about interrupts changes.
    fn enter_critical_section(&mut self, disable_interrupts: bool)
        requires
            disable_interrupts ==> old(self).spec_disable_count() < u64::MAX,
        ensures
            final(self).spec_disable_count() == old(self).spec_disable_count() + if disable_interrupts {
                1nat
            } else {
                0nat
            },
            final(self).spec_core_id() == old(self).spec_core_id(),
            final(self).spec_in_interrupt() == old(self).spec_in_interrupt(),
            final(self).spec_in_exception() == old(self).spec_in_exception(),
    ;

    /// Signals that a critical section was exited (e.g. a lock was released).
    ///
    /// Must match one earlier `enter_critical_section` with the same flag;
    /// with `enable_interrupts` the disable count drops by one.
    fn exit_critical_section(&mut self, enable_interrupts: bool)
        requires
            enable_interrupts ==> old(self).spec_disable_count() > 0,
        ensures
            final(self).spec_disable_count() + if enable_interrupts {
                1nat
            } else {
                0nat
            } == old(self).spec_disable_count(),
            final(self).spec_core_id() == old(self).spec_core_id(),
            final(self).spec_in_interrupt() == old(self).spec_in_interrupt(),
            final(self).spec_in_exception() == old(self).spec_in_exception(),
    ;
}

} // verus!
