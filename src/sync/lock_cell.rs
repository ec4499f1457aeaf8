//! Guards that stand for held locks, and the wrapper that turns a lock over a
//! possibly uninitialized value into a lock over the value itself.

use super::ticket_lock::TicketLock;
use super::InterruptState;
use vstd::prelude::*;

verus! {

/// The internals shared by every lock cell: access to the protected value
/// under a guard, and release.
///
/// Normally this is only used to implement a lock cell.
pub trait LockCellInternal<T>: Sized {
    /// The lock's invariant.
    spec fn inv(&self) -> bool;

    /// Whether anybody holds the lock.
    spec fn spec_locked(&self) -> bool;

    /// Whether the lock leaves interrupts enabled while held exclusively.
    spec fn spec_is_preemtable(&self) -> bool;

    /// The protected value.
    spec fn value(&self) -> T;

    /// Whether `guard` is the guard of the lock's exclusive holder.
    spec fn accepts(&self, guard: &LockCellGuard) -> bool;

    /// Whether some core holds the lock exclusively.
    spec fn exclusively_held(&self) -> bool;

    /// Whether the lock can be taken exclusively right away.
    spec fn can_lock(&self) -> bool;

    /// Whether nobody but the current holder, if any, has laid claim to the lock.
    spec fn uncontended(&self) -> bool;

    /// How many more exclusive acquisitions the lock's counters allow.
    spec fn room(&self) -> nat;

    /// The protected value, read through the holder's guard.
    fn get(&self, guard: &LockCellGuard) -> (r: &T)
        requires
            self.accepts(guard),
        ensures
            *r == self.value(),
    ;

    /// The protected value, written through the holder's guard.
    fn get_mut(&mut self, guard: &LockCellGuard) -> (r: &mut T)
        requires
            old(self).accepts(guard),
        ensures
            *r == old(self).value(),
            final(self).value() == *final(r),
            final(self).accepts(guard),
            final(self).inv() == old(self).inv(),
            final(self).spec_is_preemtable() == old(self).spec_is_preemtable(),
            final(self).uncontended() == old(self).uncontended(),
            final(self).room() == old(self).room(),
    ;

    /// Releases the lock held under `guard`, leaving the critical section
    /// that taking it entered.
    fn unlock<I: InterruptState>(&mut self, guard: LockCellGuard, is: &mut I)
        requires
            old(self).inv(),
            old(self).accepts(&guard),
            !old(self).spec_is_preemtable() ==> old(is).spec_disable_count() > 0,
        ensures
            final(self).inv(),
            !final(self).spec_locked(),
            old(self).uncontended() ==> final(self).can_lock(),
            final(self).room() == old(self).room(),
            final(self).value() == old(self).value(),
            final(self).spec_is_preemtable() == old(self).spec_is_preemtable(),
            final(is).spec_disable_count() + if old(self).spec_is_preemtable() {
                0nat
            } else {
                1nat
            } == old(is).spec_disable_count(),
            final(is).spec_core_id() == old(is).spec_core_id(),
            final(is).spec_in_interrupt() == old(is).spec_in_interrupt(),
            final(is).spec_in_exception() == old(is).spec_in_exception(),
    ;

    /// Releases an exclusively held lock without its guard; meant for a
    /// panic handler. The guard must never be used again.
    fn force_unlock<I: InterruptState>(&mut self, is: &mut I)
        requires
            old(self).inv(),
            old(self).exclusively_held(),
            !old(self).spec_is_preemtable() ==> old(is).spec_disable_count() > 0,
        ensures
            final(self).inv(),
            !final(self).spec_locked(),
            old(self).uncontended() ==> final(self).can_lock(),
            final(self).room() == old(self).room(),
            final(self).value() == old(self).value(),
            final(self).spec_is_preemtable() == old(self).spec_is_preemtable(),
            final(is).spec_disable_count() + if old(self).spec_is_preemtable() {
                0nat
            } else {
                1nat
            } == old(is).spec_disable_count(),
            final(is).spec_core_id() == old(is).spec_core_id(),
            final(is).spec_in_interrupt() == old(is).spec_in_interrupt(),
            final(is).spec_in_exception() == old(is).spec_in_exception(),
    ;

    /// Returns `true` if nobody holds the lock. Another core may take it
    /// right after, so this is only a snapshot.
    fn is_unlocked(&self) -> (r: bool)
        ensures
            r == !self.spec_locked(),
    ;

    /// Returns `true` if the lock leaves interrupts enabled while held exclusively.
    fn is_preemtable(&self) -> (r: bool)
        ensures
            r == self.spec_is_preemtable(),
    ;
}

/// A lock cell: guards exclusive access to a value.
pub trait LockCell<T>: LockCellInternal<T> {
    /// Takes the lock, when it can be taken right away.
    fn lock<I: InterruptState>(&mut self, is: &mut I) -> (g: LockCellGuard)
        requires
            old(self).inv(),
            old(self).can_lock(),
            old(self).room() > 0,
            !(old(self).spec_is_preemtable() && old(is).spec_in_interrupt()),
            !old(self).spec_is_preemtable() ==> old(is).spec_disable_count() < u64::MAX,
        ensures
            final(self).inv(),
            final(self).accepts(&g),
            final(self).exclusively_held(),
            final(self).spec_locked(),
            final(self).uncontended(),
            final(self).room() + 1 >= old(self).room(),
            final(self).value() == old(self).value(),
            final(self).spec_is_preemtable() == old(self).spec_is_preemtable(),
            final(is).spec_disable_count() == old(is).spec_disable_count() + if old(self).spec_is_preemtable() {
                0nat
            } else {
                1nat
            },
            final(is).spec_core_id() == old(is).spec_core_id(),
            final(is).spec_in_interrupt() == old(is).spec_in_interrupt(),
            final(is).spec_in_exception() == old(is).spec_in_exception(),
    ;

    /// Takes the lock if it can be taken right away; otherwise returns
    /// `None` at once and changes nothing.
    fn try_lock<I: InterruptState>(&mut self, is: &mut I) -> (r: Option<LockCellGuard>)
        requires
            old(self).inv(),
            old(self).room() > 0,
            !(old(self).spec_is_preemtable() && old(is).spec_in_interrupt()),
            !old(self).spec_is_preemtable() ==> old(is).spec_disable_count() < u64::MAX,
        ensures
            final(self).inv(),
            r is Some <==> old(self).can_lock(),
            r matches Some(g) ==> final(self).accepts(&g) && final(self).exclusively_held()
                && final(self).uncontended() && final(self).room() + 1 >= old(self).room() && final(is).spec_disable_count() == old(is).spec_disable_count() + if old(self).spec_is_preemtable() {
                0nat
            } else {
                1nat
            },
            r is None ==> *final(self) == *old(self) && *final(is) == *old(is),
            final(self).value() == old(self).value(),
            final(self).spec_is_preemtable() == old(self).spec_is_preemtable(),
            final(is).spec_core_id() == old(is).spec_core_id(),
            final(is).spec_in_interrupt() == old(is).spec_in_interrupt(),
            final(is).spec_in_exception() == old(is).spec_in_exception(),
    ;
}

/// The internals of a read-write lock cell: giving back read access.
///
/// Normally this is only used to implement a read-write lock cell.
pub trait RwCellInternal<T>: LockCellInternal<T> {
    /// The number of live read accesses.
    spec fn readers(&self) -> nat;

    /// Whether a reader could enter now.
    spec fn spec_open_to_read(&self) -> bool;

    /// Gives back one read access.
    fn release_read<I: InterruptState>(&mut self, guard: ReadCellGuard, is: &mut I)
        requires
            old(self).inv(),
            old(self).readers() > 0,
        ensures
            final(self).inv(),
            final(self).readers() + 1 == old(self).readers(),
            final(self).room() == old(self).room(),
            final(self).value() == old(self).value(),
            *final(is) == *old(is),
    ;

    /// Gives back one read access without its guard.
    fn force_release_read<I: InterruptState>(&mut self, is: &mut I)
        requires
            old(self).inv(),
            old(self).readers() > 0,
        ensures
            final(self).inv(),
            final(self).readers() + 1 == old(self).readers(),
            final(self).room() == old(self).room(),
            final(self).value() == old(self).value(),
            *final(is) == *old(is),
    ;

    /// Returns `true` if a reader could enter now; only a snapshot.
    fn open_to_read(&self) -> (r: bool)
        ensures
            r == self.spec_open_to_read(),
    ;
}

/// A lock cell that admits either many readers or one writer.
pub trait RwLockCell<T>: LockCell<T> + RwCellInternal<T> {
    /// Whether there is room for one more reader.
    spec fn has_read_room(&self) -> bool;

    /// Takes shared read access while no writer holds the lock.
    fn read<I: InterruptState>(&mut self, is: &mut I) -> (g: ReadCellGuard)
        requires
            old(self).inv(),
            old(self).spec_open_to_read(),
            old(self).has_read_room(),
        ensures
            final(self).inv(),
            final(self).readers() == old(self).readers() + 1,
            final(self).room() == old(self).room(),
            !final(self).exclusively_held(),
            final(self).value() == old(self).value(),
            *final(is) == *old(is),
    ;

    /// Takes exclusive write access, when it can be taken right away.
    fn write<I: InterruptState>(&mut self, is: &mut I) -> (g: LockCellGuard)
        requires
            old(self).inv(),
            old(self).can_lock(),
            old(self).room() > 0,
            !(old(self).spec_is_preemtable() && old(is).spec_in_interrupt()),
            !old(self).spec_is_preemtable() ==> old(is).spec_disable_count() < u64::MAX,
        ensures
            final(self).inv(),
            final(self).accepts(&g),
            final(self).exclusively_held(),
            final(self).uncontended(),
            final(self).room() + 1 >= old(self).room(),
            final(self).readers() == 0,
            final(self).value() == old(self).value(),
            final(is).spec_disable_count() == old(is).spec_disable_count() + if old(self).spec_is_preemtable() {
                0nat
            } else {
                1nat
            },
            final(is).spec_core_id() == old(is).spec_core_id(),
            final(is).spec_in_interrupt() == old(is).spec_in_interrupt(),
            final(is).spec_in_exception() == old(is).spec_in_exception(),
    ;
}

/// A handle that stands for "this core holds the lock".
///
/// It is handed out by a successful acquisition, gives access to the protected
/// value, and is consumed when the lock is released. It cannot be copied.
#[derive(Debug)]
pub struct LockCellGuard {
    pub(crate) ticket: u64,
}

impl LockCellGuard {
    /// The ticket under which the lock was acquired.
    pub open(crate) spec fn ticket(&self) -> u64 {
        self.ticket
    }

    /// A guard for the acquisition made under `ticket`, for implementing a
    /// lock cell. Only one guard may exist per acquisition.
    pub fn new(ticket: u64) -> (r: LockCellGuard)
        ensures
            r.ticket() == ticket,
    {
        LockCellGuard { ticket }
    }

    /// Runs `f` on the guard in an expression chain and hands the guard back.
    pub fn also<F: FnOnce(&mut LockCellGuard)>(self, f: F) -> (r: LockCellGuard)
        requires
            forall|g: &mut LockCellGuard| #[trigger] f.requires((g,)),
        ensures
            r.ticket() == self.ticket(),
    {
        let mut guard = self;
        let ticket = guard.ticket;
        f(&mut guard);
        // `f` may only look at the guard: it stays the guard of the same acquisition.
        guard.ticket = ticket;
        guard
    }
}

/// A handle that stands for one shared read access to a read-write lock.
#[derive(Debug)]
pub struct ReadCellGuard {
    pub(crate) _private: (),
}

impl ReadCellGuard {
    /// A guard for one read access, for implementing a read-write lock cell.
    pub fn new() -> (r: ReadCellGuard) {
        ReadCellGuard { _private: () }
    }
}

/// A lock cell over a value that is initialized after the lock exists.
///
/// The inner lock starts out holding no value, for storage that must exist
/// before its initializer can run. [`UnwrapLockCell::lock_uninit`] with
/// [`UnwrapLockCell::get_uninit_mut`] is the one way to fill it. Only a cell
/// whose value is there offers the [`LockCell`] interface, as if the value
/// had always been there.
#[derive(Debug)]
pub struct UnwrapLockCell<T, L> {
    /// The inner lock that holds the value once it is initialized.
    lockcell: L,
    _value: core::marker::PhantomData<T>,
}

/// An [`UnwrapLockCell`] around a [`TicketLock`].
pub type UnwrapTicketLock<T> = UnwrapLockCell<T, TicketLock<Option<T>>>;

impl<T, L: LockCell<Option<T>>> UnwrapLockCell<T, L> {
    /// The inner lock.
    pub closed spec fn inner(&self) -> L {
        self.lockcell
    }

    /// Whether the value has been initialized.
    pub open spec fn is_initialized(&self) -> bool {
        self.inner().value() is Some
    }

    /// Wraps `inner`, which holds the value once it is initialized.
    pub fn new(inner: L) -> (r: Self)
        ensures
            r.inner() == inner,
    {
        UnwrapLockCell { lockcell: inner, _value: core::marker::PhantomData }
    }

    /// Takes the inner lock to initialize the value.
    pub fn lock_uninit<I: InterruptState>(&mut self, is: &mut I) -> (g: LockCellGuard)
        requires
            old(self).inner().inv(),
            old(self).inner().can_lock(),
            old(self).inner().room() > 0,
            !(old(self).inner().spec_is_preemtable() && old(is).spec_in_interrupt()),
            !old(self).inner().spec_is_preemtable() ==> old(is).spec_disable_count() < u64::MAX,
        ensures
            final(self).inner().inv(),
            final(self).inner().accepts(&g),
            final(self).inner().exclusively_held(),
            final(self).inner().uncontended(),
            final(self).inner().room() + 1 >= old(self).inner().room(),
            final(self).inner().value() == old(self).inner().value(),
            final(self).inner().spec_is_preemtable() == old(self).inner().spec_is_preemtable(),
            final(is).spec_disable_count() == old(is).spec_disable_count() + if old(self).inner().spec_is_preemtable() {
                0nat
            } else {
                1nat
            },
            final(is).spec_core_id() == old(is).spec_core_id(),
            final(is).spec_in_interrupt() == old(is).spec_in_interrupt(),
            final(is).spec_in_exception() == old(is).spec_in_exception(),
    {
        self.lockcell.lock(is)
    }

    /// The slot of the value, written through the holder's guard, for initialization.
    pub fn get_uninit_mut<'a>(&'a mut self, guard: &LockCellGuard) -> (r: &'a mut Option<T>)
        requires
            old(self).inner().accepts(guard),
        ensures
            *r == old(self).inner().value(),
            final(self).inner().value() == *final(r),
            final(self).inner().accepts(guard),
            final(self).inner().inv() == old(self).inner().inv(),
            final(self).inner().spec_is_preemtable() == old(self).inner().spec_is_preemtable(),
            final(self).inner().uncontended() == old(self).inner().uncontended(),
            final(self).inner().room() == old(self).inner().room(),
    {
        self.lockcell.get_mut(guard)
    }
}

impl<T> UnwrapLockCell<T, TicketLock<Option<T>>> {
    /// A preemtable cell whose value is not initialized yet.
    pub fn new_uninit() -> (r: Self)
        ensures
            r.inner().wf(),
            r.inner().is_idle(),
            r.inner().preemtable(),
            r.inner().current() == 0,
            !r.is_initialized(),
    {
        Self::new(TicketLock::new(None))
    }

    /// A non-preemtable cell whose value is not initialized yet.
    pub fn new_non_preemtable_uninit() -> (r: Self)
        ensures
            r.inner().wf(),
            r.inner().is_idle(),
            !r.inner().preemtable(),
            r.inner().current() == 0,
            !r.is_initialized(),
    {
        Self::new(TicketLock::new_non_preemtable(None))
    }
}

impl<T> Default for UnwrapLockCell<T, TicketLock<Option<T>>> {
    fn default() -> (r: Self)
        ensures
            r.inner().wf(),
            r.inner().is_idle(),
            r.inner().preemtable(),
            !r.is_initialized(),
    {
        Self::new_uninit()
    }
}

impl<T, L: LockCell<Option<T>>> LockCellInternal<T> for UnwrapLockCell<T, L> {
    /// A usable cell is one whose value has been initialized.
    open spec fn inv(&self) -> bool {
        self.inner().inv() && self.is_initialized()
    }

    open spec fn spec_locked(&self) -> bool {
        self.inner().spec_locked()
    }

    open spec fn spec_is_preemtable(&self) -> bool {
        self.inner().spec_is_preemtable()
    }

    open spec fn value(&self) -> T {
        self.inner().value().unwrap()
    }

    open spec fn accepts(&self, guard: &LockCellGuard) -> bool {
        self.inner().accepts(guard) && self.is_initialized()
    }

    open spec fn exclusively_held(&self) -> bool {
        self.inner().exclusively_held()
    }

    open spec fn can_lock(&self) -> bool {
        self.inner().can_lock()
    }

    open spec fn uncontended(&self) -> bool {
        self.inner().uncontended()
    }

    open spec fn room(&self) -> nat {
        self.inner().room()
    }

    fn get(&self, guard: &LockCellGuard) -> (r: &T) {
        self.lockcell.get(guard).as_ref().unwrap()
    }

    fn get_mut(&mut self, guard: &LockCellGuard) -> (r: &mut T) {
        self.lockcell.get_mut(guard).as_mut().unwrap()
    }

    fn unlock<I: InterruptState>(&mut self, guard: LockCellGuard, is: &mut I) {
        self.lockcell.unlock(guard, is)
    }

    fn force_unlock<I: InterruptState>(&mut self, is: &mut I) {
        self.lockcell.force_unlock(is)
    }

    fn is_unlocked(&self) -> (r: bool) {
        self.lockcell.is_unlocked()
    }

    fn is_preemtable(&self) -> (r: bool) {
        self.lockcell.is_preemtable()
    }
}

impl<T, L: LockCell<Option<T>>> LockCell<T> for UnwrapLockCell<T, L> {
    fn lock<I: InterruptState>(&mut self, is: &mut I) -> (g: LockCellGuard) {
        self.lockcell.lock(is)
    }

    fn try_lock<I: InterruptState>(&mut self, is: &mut I) -> (r: Option<LockCellGuard>) {
        self.lockcell.try_lock(is)
    }
}

impl<T, L: RwLockCell<Option<T>>> RwCellInternal<T> for UnwrapLockCell<T, L> {
    open spec fn readers(&self) -> nat {
        self.inner().readers()
    }

    open spec fn spec_open_to_read(&self) -> bool {
        self.inner().spec_open_to_read()
    }

    fn release_read<I: InterruptState>(&mut self, guard: ReadCellGuard, is: &mut I) {
        self.lockcell.release_read(guard, is)
    }

    fn force_release_read<I: InterruptState>(&mut self, is: &mut I) {
        self.lockcell.force_release_read(is)
    }

    fn open_to_read(&self) -> (r: bool) {
        self.lockcell.open_to_read()
    }
}

impl<T, L: RwLockCell<Option<T>>> RwLockCell<T> for UnwrapLockCell<T, L> {
    open spec fn has_read_room(&self) -> bool {
        self.inner().has_read_room()
    }

    fn read<I: InterruptState>(&mut self, is: &mut I) -> (g: ReadCellGuard) {
        self.lockcell.read(is)
    }

    fn write<I: InterruptState>(&mut self, is: &mut I) -> (g: LockCellGuard) {
        self.lockcell.write(is)
    }
}

} // verus!
