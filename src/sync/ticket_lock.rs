//! A [ticket lock](https://en.wikipedia.org/wiki/Ticket_lock), a spinlock
//! that serves its waiters in the order they arrived, and a read-write lock
//! that admits many readers or one writer.
//!
//! Both are state machines over plain values. Each core passes its own
//! [`InterruptState`] to every operation. Waiting is split into single poll
//! steps, so contention between cores is expressed as an interleaving of
//! those steps.

use super::lock_cell::{
    LockCell, LockCellGuard, LockCellInternal, ReadCellGuard, RwCellInternal, RwLockCell,
};
use super::InterruptState;
use crate::text::{decimal, push_decimal};
use crate::types::CoreId;
use vstd::string::StringExecFns;
use vstd::prelude::*;

verus! {

/// The `owner` value of a ticket lock that no core holds.
pub const NO_OWNER: u16 = 0xffff;

/// A ticket drawn from a [`TicketLock`]: the caller may proceed once the
/// lock's current ticket reaches this number. It cannot be copied.
#[derive(Debug)]
pub struct Ticket {
    number: u64,
}

impl Ticket {
    /// The ticket's number.
    pub closed spec fn number(&self) -> u64 {
        self.number
    }

    /// The ticket's number.
    pub fn value(&self) -> (r: u64)
        ensures
            r == self.number(),
    {
        self.number
    }
}

/// What one step of waiting on a [`TicketLock`] found.
#[derive(Debug)]
pub enum TicketPoll {
    /// The ticket's turn has come: the lock is now held under this guard.
    Acquired(LockCellGuard),
    /// Another ticket is being served: poll again with the ticket.
    Waiting(Ticket),
    /// The core that polls already holds the lock, so the ticket would never
    /// be served.
    Deadlock,
}

/// A fair, first-come-first-served spinlock around a value of type `T`.
#[derive(Debug)]
pub struct TicketLock<T> {
    /// The ticket that may hold the lock.
    current_ticket: u64,
    /// The next ticket to hand out.
    next_ticket: u64,
    /// The data held by the lock.
    data: T,
    /// The core holding the lock, or [`NO_OWNER`].
    owner: u16,
    /// `true` if the lock leaves interrupts enabled while held; such a lock
    /// must not be taken inside an interrupt.
    preemtable: bool,
}

impl<T> TicketLock<T> {
    /// The ticket that may hold the lock.
    pub closed spec fn current(&self) -> u64 {
        self.current_ticket
    }

    /// The next ticket to hand out.
    pub closed spec fn next(&self) -> u64 {
        self.next_ticket
    }

    /// The core holding the lock.
    pub closed spec fn owner(&self) -> Option<CoreId> {
        if self.owner == NO_OWNER {
            None
        } else {
            Some(CoreId(self.owner as u8))
        }
    }

    /// The protected value.
    pub closed spec fn data(&self) -> T {
        self.data
    }

    /// Whether the lock leaves interrupts enabled while held.
    pub closed spec fn preemtable(&self) -> bool {
        self.preemtable
    }

    /// The lock's invariant: tickets are served in order, a held lock is held
    /// under a ticket that was handed out, and the owner is a core id.
    pub closed spec fn wf(&self) -> bool {
        &&& self.current_ticket <= self.next_ticket
        &&& (self.owner != NO_OWNER ==> self.current_ticket < self.next_ticket)
        &&& (self.owner == NO_OWNER || self.owner < 256)
    }

    /// Whether some core holds the lock.
    pub open spec fn is_held(&self) -> bool {
        self.owner() is Some
    }

    /// Whether `guard` is the guard of the holder of this lock.
    pub open spec fn holds(&self, guard: &LockCellGuard) -> bool {
        self.is_held() && guard.ticket() == self.current()
    }

    /// Whether a poll with ticket `t` would acquire the lock now.
    pub open spec fn grants(&self, t: u64) -> bool {
        !self.is_held() && self.current() == t
    }

    /// Whether nobody holds the lock or waits for it.
    pub open spec fn is_idle(&self) -> bool {
        !self.is_held() && self.current() == self.next()
    }

    /// Whether a core with interrupt state `is` may take this lock: a
    /// preemtable lock must not be taken inside an interrupt, and a
    /// non-preemtable one needs room for one more disable request.
    pub open spec fn may_take<I: InterruptState>(&self, is: &I) -> bool {
        &&& !(self.preemtable() && is.spec_in_interrupt())
        &&& (!self.preemtable() ==> is.spec_disable_count() < u64::MAX)
    }

    /// The state `self` is left in by releasing it: nobody holds it and the
    /// next ticket may proceed.
    pub open spec fn released_from(&self, held: &TicketLock<T>) -> bool {
        &&& self.owner() is None
        &&& self.current() == held.current() + 1
        &&& self.next() == held.next()
        &&& self.data() == held.data()
        &&& self.preemtable() == held.preemtable()
    }

    /// Creates a new preemtable [`TicketLock`] around `data`.
    pub fn new(data: T) -> (r: Self)
        ensures
            r.wf(),
            r.is_idle(),
            r.current() == 0,
            r.preemtable(),
            r.data() == data,
    {
        TicketLock { current_ticket: 0, next_ticket: 0, data, owner: NO_OWNER, preemtable: true }
    }

    /// Creates a new non-preemtable [`TicketLock`] around `data`: interrupts
    /// are disabled while it is held.
    pub fn new_non_preemtable(data: T) -> (r: Self)
        ensures
            r.wf(),
            r.is_idle(),
            r.current() == 0,
            !r.preemtable(),
            r.data() == data,
    {
        TicketLock { current_ticket: 0, next_ticket: 0, data, owner: NO_OWNER, preemtable: false }
    }

    /// The raw owner field: a core id, or [`NO_OWNER`].
    pub closed spec fn owner_raw(&self) -> u16 {
        self.owner
    }

    /// The text that [`TicketLock::write_state`] writes.
    pub open spec fn state_text(&self) -> Seq<char> {
        "[TicketLock(c: "@ + decimal(self.current() as nat) + ", n: "@ + decimal(self.next() as nat)
            + ", o: "@ + decimal(self.owner_raw() as nat) + ")]"@
    }

    /// Appends the lock's state, not including the guarded data, to `out`:
    /// the current ticket, the next ticket and the raw owner field.
    pub fn write_state(&self, out: &mut String)
        ensures
            final(out)@ == old(out)@ + self.state_text(),
    {
        out.append("[TicketLock(c: ");
        push_decimal(out, self.current_ticket);
        out.append(", n: ");
        push_decimal(out, self.next_ticket);
        out.append(", o: ");
        push_decimal(out, self.owner as u64);
        out.append(")]");
        proof {
            assert(out@ =~= old(out)@ + self.state_text());
        }
    }

    /// Returns `true` if no core holds the lock.
    pub fn is_unlocked(&self) -> (r: bool)
        ensures
            r == !self.is_held(),
    {
        self.owner == NO_OWNER
    }

    /// Returns `true` if the lock leaves interrupts enabled while held.
    pub fn is_preemtable(&self) -> (r: bool)
        ensures
            r == self.preemtable(),
    {
        self.preemtable
    }

    /// Draws the next ticket, after entering the critical section that the
    /// lock's kind asks for.
    pub fn take_ticket<I: InterruptState>(&mut self, is: &mut I) -> (t: Ticket)
        requires
            old(self).wf(),
            old(self).may_take(old(is)),
            old(self).next() < u64::MAX,
        ensures
            final(self).wf(),
            t.number() == old(self).next(),
            final(self).next() == old(self).next() + 1,
            final(self).current() == old(self).current(),
            final(self).owner() == old(self).owner(),
            final(self).data() == old(self).data(),
            final(self).preemtable() == old(self).preemtable(),
            final(is).spec_disable_count() == old(is).spec_disable_count() + if old(self).preemtable() {
                0nat
            } else {
                1nat
            },
            final(is).spec_core_id() == old(is).spec_core_id(),
            final(is).spec_in_interrupt() == old(is).spec_in_interrupt(),
            final(is).spec_in_exception() == old(is).spec_in_exception(),
    {
        is.enter_critical_section(!self.preemtable);
        let number = self.next_ticket;
        self.next_ticket = number + 1;
        Ticket { number }
    }

    /// One step of waiting with `ticket`.
    ///
    /// The lock is acquired when the ticket's turn has come and nobody holds
    /// it; the owner becomes the polling core. A core that polls while it
    /// holds the lock itself gets [`TicketPoll::Deadlock`].
    pub fn poll_ticket<I: InterruptState>(&mut self, ticket: Ticket, is: &I) -> (r: TicketPoll)
        requires
            old(self).wf(),
            ticket.number() < old(self).next(),
        ensures
            final(self).wf(),
            final(self).current() == old(self).current(),
            final(self).next() == old(self).next(),
            final(self).data() == old(self).data(),
            final(self).preemtable() == old(self).preemtable(),
            (r is Acquired) == old(self).grants(ticket.number()),
            (r is Deadlock) == (!old(self).grants(ticket.number()) && old(self).owner() == Some(
                is.spec_core_id(),
            )),
            r matches TicketPoll::Acquired(g) ==> g.ticket() == ticket.number() && final(self).holds(&g)
                && final(self).owner() == Some(is.spec_core_id()),
            r matches TicketPoll::Waiting(t) ==> t.number() == ticket.number() && final(self).owner()
                == old(self).owner(),
            r is Deadlock ==> final(self).owner() == old(self).owner(),
    {
        let me = is.core_id();
        if self.owner == NO_OWNER && self.current_ticket == ticket.number {
            self.owner = me.0 as u16;
            TicketPoll::Acquired(LockCellGuard { ticket: ticket.number })
        } else if self.owner == me.0 as u16 {
            TicketPoll::Deadlock
        } else {
            TicketPoll::Waiting(ticket)
        }
    }

    /// Takes the lock when nobody holds it or waits for it.
    pub fn lock<I: InterruptState>(&mut self, is: &mut I) -> (g: LockCellGuard)
        requires
            old(self).wf(),
            old(self).may_take(old(is)),
            old(self).is_idle(),
            old(self).next() < u64::MAX,
        ensures
            final(self).wf(),
            final(self).holds(&g),
            g.ticket() == old(self).next(),
            final(self).owner() == Some(old(is).spec_core_id()),
            final(self).current() == old(self).current(),
            final(self).next() == old(self).next() + 1,
            final(self).data() == old(self).data(),
            final(self).preemtable() == old(self).preemtable(),
            final(is).spec_disable_count() == old(is).spec_disable_count() + if old(self).preemtable() {
                0nat
            } else {
                1nat
            },
            final(is).spec_core_id() == old(is).spec_core_id(),
            final(is).spec_in_interrupt() == old(is).spec_in_interrupt(),
            final(is).spec_in_exception() == old(is).spec_in_exception(),
    {
        let ticket = self.take_ticket(is);
        match self.poll_ticket(ticket, is) {
            TicketPoll::Acquired(g) => g,
            TicketPoll::Waiting(t) => {
                proof {
                    assert(false);
                }
                LockCellGuard { ticket: t.number }
            },
            TicketPoll::Deadlock => {
                proof {
                    assert(false);
                }
                LockCellGuard { ticket: 0 }
            },
        }
    }

    /// Takes the lock only if nobody holds it or waits for it; otherwise
    /// returns `None` at once and changes nothing.
    pub fn try_lock<I: InterruptState>(&mut self, is: &mut I) -> (r: Option<LockCellGuard>)
        requires
            old(self).wf(),
            old(self).may_take(old(is)),
            old(self).next() < u64::MAX,
        ensures
            final(self).wf(),
            r is Some <==> old(self).is_idle(),
            r matches Some(g) ==> final(self).holds(&g) && final(self).owner() == Some(
                old(is).spec_core_id(),
            ) && final(self).next() == old(self).next() + 1 && final(is).spec_disable_count()
                == old(is).spec_disable_count() + if old(self).preemtable() {
                0nat
            } else {
                1nat
            },
            r is None ==> *final(self) == *old(self) && *final(is) == *old(is),
            final(self).current() == old(self).current(),
            final(self).data() == old(self).data(),
            final(self).preemtable() == old(self).preemtable(),
            final(is).spec_core_id() == old(is).spec_core_id(),
            final(is).spec_in_interrupt() == old(is).spec_in_interrupt(),
            final(is).spec_in_exception() == old(is).spec_in_exception(),
    {
        if self.owner == NO_OWNER && self.current_ticket == self.next_ticket {
            Some(self.lock(is))
        } else {
            None
        }
    }

    /// Releases the lock held under `guard`: clears the owner, lets the next
    /// ticket proceed, and leaves the critical section that taking it entered.
    pub fn unlock<I: InterruptState>(&mut self, guard: LockCellGuard, is: &mut I)
        requires
            old(self).wf(),
            old(self).holds(&guard),
            !old(self).preemtable() ==> old(is).spec_disable_count() > 0,
        ensures
            final(self).wf(),
            final(self).released_from(old(self)),
            final(is).spec_disable_count() + if old(self).preemtable() {
                0nat
            } else {
                1nat
            } == old(is).spec_disable_count(),
            final(is).spec_core_id() == old(is).spec_core_id(),
            final(is).spec_in_interrupt() == old(is).spec_in_interrupt(),
            final(is).spec_in_exception() == old(is).spec_in_exception(),
    {
        self.force_unlock(is);
    }

    /// Releases a held lock without its guard.
    ///
    /// Meant for a panic handler that must reach a resource whose guard is
    /// lost; the guard must never be used again.
    pub fn force_unlock<I: InterruptState>(&mut self, is: &mut I)
        requires
            old(self).wf(),
            old(self).is_held(),
            !old(self).preemtable() ==> old(is).spec_disable_count() > 0,
        ensures
            final(self).wf(),
            final(self).released_from(old(self)),
            final(is).spec_disable_count() + if old(self).preemtable() {
                0nat
            } else {
                1nat
            } == old(is).spec_disable_count(),
            final(is).spec_core_id() == old(is).spec_core_id(),
            final(is).spec_in_interrupt() == old(is).spec_in_interrupt(),
            final(is).spec_in_exception() == old(is).spec_in_exception(),
    {
        self.owner = NO_OWNER;
        self.current_ticket = self.current_ticket + 1;
        is.exit_critical_section(!self.preemtable);
    }

    /// The protected value, read through the holder's guard.
    pub fn get<'a>(&'a self, guard: &LockCellGuard) -> (r: &'a T)
        requires
            self.holds(guard),
        ensures
            *r == self.data(),
    {
        &self.data
    }

    /// The protected value, written through the holder's guard.
    pub fn get_mut<'a>(&'a mut self, guard: &LockCellGuard) -> (r: &'a mut T)
        requires
            old(self).holds(guard),
        ensures
            *r == old(self).data(),
            final(self).data() == *final(r),
            final(self).current() == old(self).current(),
            final(self).next() == old(self).next(),
            final(self).owner() == old(self).owner(),
            final(self).preemtable() == old(self).preemtable(),
            final(self).wf() == old(self).wf(),
    {
        &mut self.data
    }
}

impl<T> LockCellInternal<T> for TicketLock<T> {
    open spec fn inv(&self) -> bool {
        self.wf()
    }

    open spec fn spec_locked(&self) -> bool {
        self.is_held()
    }

    open spec fn spec_is_preemtable(&self) -> bool {
        self.preemtable()
    }

    open spec fn value(&self) -> T {
        self.data()
    }

    open spec fn accepts(&self, guard: &LockCellGuard) -> bool {
        self.holds(guard)
    }

    open spec fn exclusively_held(&self) -> bool {
        self.is_held()
    }

    open spec fn can_lock(&self) -> bool {
        self.is_idle()
    }

    open spec fn uncontended(&self) -> bool {
        self.next() == self.current() + if self.is_held() {
            1int
        } else {
            0int
        }
    }

    open spec fn room(&self) -> nat {
        (u64::MAX - self.next()) as nat
    }

    fn get(&self, guard: &LockCellGuard) -> (r: &T) {
        TicketLock::get(self, guard)
    }

    fn get_mut(&mut self, guard: &LockCellGuard) -> (r: &mut T) {
        TicketLock::get_mut(self, guard)
    }

    fn unlock<I: InterruptState>(&mut self, guard: LockCellGuard, is: &mut I) {
        TicketLock::unlock(self, guard, is)
    }

    fn force_unlock<I: InterruptState>(&mut self, is: &mut I) {
        TicketLock::force_unlock(self, is)
    }

    fn is_unlocked(&self) -> (r: bool) {
        TicketLock::is_unlocked(self)
    }

    fn is_preemtable(&self) -> (r: bool) {
        TicketLock::is_preemtable(self)
    }
}

impl<T> LockCell<T> for TicketLock<T> {
    fn lock<I: InterruptState>(&mut self, is: &mut I) -> (g: LockCellGuard) {
        TicketLock::lock(self, is)
    }

    fn try_lock<I: InterruptState>(&mut self, is: &mut I) -> (r: Option<LockCellGuard>) {
        TicketLock::try_lock(self, is)
    }
}

/// Mutual exclusion: any two guards that a ticket lock accepts as its
/// holder's are guards of the same acquisition, and while the lock is held no
/// ticket is granted.
pub proof fn mutual_exclusion<T>(lock: &TicketLock<T>, a: &LockCellGuard, b: &LockCellGuard)
    requires
        lock.wf(),
        lock.holds(a),
        lock.holds(b),
    ensures
        a.ticket() == b.ticket(),
        forall|t: u64| !#[trigger] lock.grants(t),
{
}

/// First come, first served: releasing the lock held under `guard` makes the
/// ticket drawn right after it, and no other, the one that is granted next.
pub proof fn fifo_handoff<T>(held: &TicketLock<T>, released: &TicketLock<T>, guard: &LockCellGuard)
    requires
        held.wf(),
        held.holds(guard),
        released.released_from(held),
    ensures
        forall|t: u64| #[trigger] released.grants(t) <==> t == guard.ticket() + 1,
{
}

/// Balanced critical sections: taking a ticket lock and releasing it leaves
/// the core's disable count where it was before the acquisition.
pub proof fn lock_round_trip_restores_disable_count<T, I: InterruptState>(
    lock: &TicketLock<T>,
    before: &I,
    held: &I,
    after: &I,
)
    requires
        held.spec_disable_count() == before.spec_disable_count() + if lock.preemtable() {
            0nat
        } else {
            1nat
        },
        after.spec_disable_count() + if lock.preemtable() {
            0nat
        } else {
            1nat
        } == held.spec_disable_count(),
    ensures
        after.spec_disable_count() == before.spec_disable_count(),
{
}

impl<T: Default> Default for TicketLock<T> {
    fn default() -> (r: Self)
        ensures
            r.wf(),
            r.is_idle(),
            r.preemtable(),
    {
        Self::new(T::default())
    }
}

impl<T: Default> TicketLock<T> {
    /// Creates a new non-preemtable [`TicketLock`] around `T`'s default value.
    pub fn default_non_preemtable() -> (r: Self)
        ensures
            r.wf(),
            r.is_idle(),
            !r.preemtable(),
    {
        Self::new_non_preemtable(T::default())
    }
}

/// A lock that admits either any number of readers or a single writer,
/// kept in one signed access counter.
///
/// Readers and writers are not served in order: a writer waits until the
/// counter is exactly zero.
pub struct RwTicketLock<T> {
    /// The number of readers holding a guard, or -1 while a writer holds one.
    access_count: i64,
    /// The data guarded by this lock.
    data: T,
    /// `true` if the lock leaves interrupts enabled while written.
    preemtable: bool,
    /// The number of live read guards.
    readers: Ghost<nat>,
    /// Whether a write guard is live.
    writer: Ghost<bool>,
}

impl<T> RwTicketLock<T> {
    /// The access counter.
    pub closed spec fn count(&self) -> i64 {
        self.access_count
    }

    /// The number of live read guards.
    pub closed spec fn live_readers(&self) -> nat {
        self.readers@
    }

    /// Whether a write guard is live.
    pub closed spec fn has_writer(&self) -> bool {
        self.writer@
    }

    /// The protected value.
    pub closed spec fn data(&self) -> T {
        self.data
    }

    /// Whether the lock leaves interrupts enabled while written.
    pub closed spec fn preemtable(&self) -> bool {
        self.preemtable
    }

    /// The lock's invariant: the counter is the number of live readers while
    /// there is no writer, and exactly -1 while there is one writer and no
    /// reader.
    pub closed spec fn wf(&self) -> bool {
        ||| (self.access_count >= 0 && self.readers@ == self.access_count as nat && !self.writer@)
        ||| (self.access_count == -1 && self.writer@ && self.readers@ == 0)
    }

    /// Whether a core with interrupt state `is` may take this lock for writing.
    pub open spec fn may_take<I: InterruptState>(&self, is: &I) -> bool {
        &&& !(self.preemtable() && is.spec_in_interrupt())
        &&& (!self.preemtable() ==> is.spec_disable_count() < u64::MAX)
    }

    /// Creates a new preemtable [`RwTicketLock`] around `data`.
    pub fn new(data: T) -> (r: Self)
        ensures
            r.wf(),
            r.count() == 0,
            r.preemtable(),
            r.data() == data,
    {
        RwTicketLock { access_count: 0, data, preemtable: true, readers: Ghost(0), writer: Ghost(false) }
    }

    /// Creates a new non-preemtable [`RwTicketLock`] around `data`:
    /// interrupts are disabled while it is written.
    pub fn new_non_preemtable(data: T) -> (r: Self)
        ensures
            r.wf(),
            r.count() == 0,
            !r.preemtable(),
            r.data() == data,
    {
        RwTicketLock { access_count: 0, data, preemtable: false, readers: Ghost(0), writer: Ghost(false) }
    }

    /// Returns `true` if nobody holds the lock, neither reader nor writer.
    pub fn is_unlocked(&self) -> (r: bool)
        ensures
            r == (self.count() == 0),
    {
        self.access_count == 0
    }

    /// Returns `true` if the lock leaves interrupts enabled while written.
    pub fn is_preemtable(&self) -> (r: bool)
        ensures
            r == self.preemtable(),
    {
        self.preemtable
    }

    /// Returns `true` if a reader could enter now, that is no writer holds the lock.
    pub fn open_to_read(&self) -> (r: bool)
        ensures
            r == (self.count() >= 0),
    {
        self.access_count >= 0
    }

    /// Takes shared read access while no writer holds the lock.
    ///
    /// Reading is allowed inside interrupts, so it never disables them.
    pub fn read<I: InterruptState>(&mut self, is: &mut I) -> (g: ReadCellGuard)
        requires
            old(self).wf(),
            old(self).count() >= 0,
            old(self).count() < i64::MAX,
        ensures
            final(self).wf(),
            final(self).count() == old(self).count() + 1,
            final(self).live_readers() == old(self).live_readers() + 1,
            !final(self).has_writer(),
            final(self).data() == old(self).data(),
            final(self).preemtable() == old(self).preemtable(),
            *final(is) == *old(is),
    {
        self.access_count = self.access_count + 1;
        self.readers = Ghost(self.readers@ + 1);
        ReadCellGuard { _private: () }
    }

    /// Gives back one read access.
    pub fn release_read<I: InterruptState>(&mut self, guard: ReadCellGuard, is: &mut I)
        requires
            old(self).wf(),
            old(self).count() >= 1,
        ensures
            final(self).wf(),
            final(self).count() == old(self).count() - 1,
            final(self).live_readers() + 1 == old(self).live_readers(),
            !final(self).has_writer(),
            final(self).data() == old(self).data(),
            final(self).preemtable() == old(self).preemtable(),
            *final(is) == *old(is),
    {
        self.force_release_read(is);
    }

    /// Gives back one read access without its guard, for locks built on
    /// this one that cannot keep the guard.
    pub fn force_release_read<I: InterruptState>(&mut self, is: &mut I)
        requires
            old(self).wf(),
            old(self).count() >= 1,
        ensures
            final(self).wf(),
            final(self).count() == old(self).count() - 1,
            final(self).live_readers() + 1 == old(self).live_readers(),
            !final(self).has_writer(),
            final(self).data() == old(self).data(),
            final(self).preemtable() == old(self).preemtable(),
            *final(is) == *old(is),
    {
        self.access_count = self.access_count - 1;
        self.readers = Ghost((self.readers@ - 1) as nat);
    }

    /// Takes exclusive write access while nobody holds the lock.
    pub fn lock<I: InterruptState>(&mut self, is: &mut I) -> (g: LockCellGuard)
        requires
            old(self).wf(),
            old(self).may_take(old(is)),
            old(self).count() == 0,
        ensures
            final(self).wf(),
            final(self).count() == -1,
            final(self).has_writer(),
            final(self).live_readers() == 0,
            final(self).data() == old(self).data(),
            final(self).preemtable() == old(self).preemtable(),
            final(is).spec_disable_count() == old(is).spec_disable_count() + if old(self).preemtable() {
                0nat
            } else {
                1nat
            },
            final(is).spec_core_id() == old(is).spec_core_id(),
            final(is).spec_in_interrupt() == old(is).spec_in_interrupt(),
            final(is).spec_in_exception() == old(is).spec_in_exception(),
    {
        is.enter_critical_section(!self.preemtable);
        self.access_count = -1;
        self.writer = Ghost(true);
        LockCellGuard { ticket: 0 }
    }

    /// Takes exclusive write access while nobody holds the lock; the same as [`RwTicketLock::lock`].
    pub fn write<I: InterruptState>(&mut self, is: &mut I) -> (g: LockCellGuard)
        requires
            old(self).wf(),
            old(self).may_take(old(is)),
            old(self).count() == 0,
        ensures
            final(self).wf(),
            final(self).count() == -1,
            final(self).has_writer(),
            final(self).live_readers() == 0,
            final(self).data() == old(self).data(),
            final(self).preemtable() == old(self).preemtable(),
            final(is).spec_disable_count() == old(is).spec_disable_count() + if old(self).preemtable() {
                0nat
            } else {
                1nat
            },
            final(is).spec_core_id() == old(is).spec_core_id(),
            final(is).spec_in_interrupt() == old(is).spec_in_interrupt(),
            final(is).spec_in_exception() == old(is).spec_in_exception(),
    {
        self.lock(is)
    }

    /// Takes write access only if nobody holds the lock; otherwise returns
    /// `None` and changes nothing.
    pub fn try_lock<I: InterruptState>(&mut self, is: &mut I) -> (r: Option<LockCellGuard>)
        requires
            old(self).wf(),
            old(self).may_take(old(is)),
        ensures
            final(self).wf(),
            r is Some <==> old(self).count() == 0,
            r is Some ==> final(self).count() == -1 && final(self).has_writer()
                && final(is).spec_disable_count() == old(is).spec_disable_count() + if old(self).preemtable() {
                0nat
            } else {
                1nat
            },
            r is None ==> *final(self) == *old(self) && *final(is) == *old(is),
            final(self).data() == old(self).data(),
            final(self).preemtable() == old(self).preemtable(),
            final(is).spec_core_id() == old(is).spec_core_id(),
            final(is).spec_in_interrupt() == old(is).spec_in_interrupt(),
            final(is).spec_in_exception() == old(is).spec_in_exception(),
    {
        if self.access_count == 0 {
            Some(self.lock(is))
        } else {
            None
        }
    }

    /// Gives back write access, leaving the critical section that taking it entered.
    pub fn unlock<I: InterruptState>(&mut self, guard: LockCellGuard, is: &mut I)
        requires
            old(self).wf(),
            old(self).has_writer(),
            !old(self).preemtable() ==> old(is).spec_disable_count() > 0,
        ensures
            final(self).wf(),
            final(self).count() == 0,
            !final(self).has_writer(),
            final(self).live_readers() == 0,
            final(self).data() == old(self).data(),
            final(self).preemtable() == old(self).preemtable(),
            final(is).spec_disable_count() + if old(self).preemtable() {
                0nat
            } else {
                1nat
            } == old(is).spec_disable_count(),
            final(is).spec_core_id() == old(is).spec_core_id(),
            final(is).spec_in_interrupt() == old(is).spec_in_interrupt(),
            final(is).spec_in_exception() == old(is).spec_in_exception(),
    {
        self.force_unlock(is);
    }

    /// Gives back write access without its guard; meant for a panic handler.
    pub fn force_unlock<I: InterruptState>(&mut self, is: &mut I)
        requires
            old(self).wf(),
            old(self).has_writer(),
            !old(self).preemtable() ==> old(is).spec_disable_count() > 0,
        ensures
            final(self).wf(),
            final(self).count() == 0,
            !final(self).has_writer(),
            final(self).live_readers() == 0,
            final(self).data() == old(self).data(),
            final(self).preemtable() == old(self).preemtable(),
            final(is).spec_disable_count() + if old(self).preemtable() {
                0nat
            } else {
                1nat
            } == old(is).spec_disable_count(),
            final(is).spec_core_id() == old(is).spec_core_id(),
            final(is).spec_in_interrupt() == old(is).spec_in_interrupt(),
            final(is).spec_in_exception() == old(is).spec_in_exception(),
    {
        self.access_count = 0;
        self.writer = Ghost(false);
        is.exit_critical_section(!self.preemtable);
    }

    /// The protected value, read under a read or write access.
    pub fn get(&self) -> (r: &T)
        requires
            self.live_readers() > 0 || self.has_writer(),
        ensures
            *r == self.data(),
    {
        &self.data
    }

    /// The protected value, written under the write access of `guard`.
    pub fn get_mut<'a>(&'a mut self, guard: &LockCellGuard) -> (r: &'a mut T)
        requires
            old(self).has_writer(),
        ensures
            *r == old(self).data(),
            final(self).data() == *final(r),
            final(self).count() == old(self).count(),
            final(self).live_readers() == old(self).live_readers(),
            final(self).has_writer() == old(self).has_writer(),
            final(self).preemtable() == old(self).preemtable(),
            final(self).wf() == old(self).wf(),
    {
        &mut self.data
    }
}

impl<T> LockCellInternal<T> for RwTicketLock<T> {
    open spec fn inv(&self) -> bool {
        self.wf()
    }

    open spec fn spec_locked(&self) -> bool {
        self.count() != 0
    }

    open spec fn spec_is_preemtable(&self) -> bool {
        self.preemtable()
    }

    open spec fn value(&self) -> T {
        self.data()
    }

    open spec fn accepts(&self, guard: &LockCellGuard) -> bool {
        self.has_writer()
    }

    open spec fn exclusively_held(&self) -> bool {
        self.has_writer()
    }

    open spec fn can_lock(&self) -> bool {
        self.count() == 0
    }

    open spec fn uncontended(&self) -> bool {
        true
    }

    open spec fn room(&self) -> nat {
        u64::MAX as nat
    }

    fn get(&self, guard: &LockCellGuard) -> (r: &T) {
        RwTicketLock::get(self)
    }

    fn get_mut(&mut self, guard: &LockCellGuard) -> (r: &mut T) {
        RwTicketLock::get_mut(self, guard)
    }

    fn unlock<I: InterruptState>(&mut self, guard: LockCellGuard, is: &mut I) {
        RwTicketLock::unlock(self, guard, is)
    }

    fn force_unlock<I: InterruptState>(&mut self, is: &mut I) {
        RwTicketLock::force_unlock(self, is)
    }

    fn is_unlocked(&self) -> (r: bool) {
        RwTicketLock::is_unlocked(self)
    }

    fn is_preemtable(&self) -> (r: bool) {
        RwTicketLock::is_preemtable(self)
    }
}

impl<T> LockCell<T> for RwTicketLock<T> {
    fn lock<I: InterruptState>(&mut self, is: &mut I) -> (g: LockCellGuard) {
        RwTicketLock::lock(self, is)
    }

    fn try_lock<I: InterruptState>(&mut self, is: &mut I) -> (r: Option<LockCellGuard>) {
        RwTicketLock::try_lock(self, is)
    }
}

impl<T> RwCellInternal<T> for RwTicketLock<T> {
    open spec fn readers(&self) -> nat {
        self.live_readers()
    }

    open spec fn spec_open_to_read(&self) -> bool {
        self.count() >= 0
    }

    fn release_read<I: InterruptState>(&mut self, guard: ReadCellGuard, is: &mut I) {
        RwTicketLock::release_read(self, guard, is)
    }

    fn force_release_read<I: InterruptState>(&mut self, is: &mut I) {
        RwTicketLock::force_release_read(self, is)
    }

    fn open_to_read(&self) -> (r: bool) {
        RwTicketLock::open_to_read(self)
    }
}

impl<T> RwLockCell<T> for RwTicketLock<T> {
    open spec fn has_read_room(&self) -> bool {
        self.count() < i64::MAX
    }

    fn read<I: InterruptState>(&mut self, is: &mut I) -> (g: ReadCellGuard) {
        RwTicketLock::read(self, is)
    }

    fn write<I: InterruptState>(&mut self, is: &mut I) -> (g: LockCellGuard) {
        RwTicketLock::write(self, is)
    }
}

/// Read-write exclusivity: in every state the access counter either is
/// non-negative and equals the number of live readers with no writer, or is
/// exactly -1 with one writer and no reader; never both.
pub proof fn rw_exclusivity<T>(lock: &RwTicketLock<T>)
    requires
        lock.wf(),
    ensures
        (lock.count() >= 0 && lock.count() == lock.live_readers() && !lock.has_writer()) || (
        lock.count() == -1 && lock.has_writer() && lock.live_readers() == 0),
        !(lock.has_writer() && lock.live_readers() > 0),
{
}

impl<T: Default> Default for RwTicketLock<T> {
    fn default() -> (r: Self)
        ensures
            r.wf(),
            r.count() == 0,
            r.preemtable(),
    {
        Self::new(T::default())
    }
}

impl<T: Default> RwTicketLock<T> {
    /// Creates a new non-preemtable [`RwTicketLock`] around `T`'s default value.
    pub fn default_non_preemtable() -> (r: Self)
        ensures
            r.wf(),
            r.count() == 0,
            !r.preemtable(),
    {
        Self::new_non_preemtable(T::default())
    }
}

} // verus!
