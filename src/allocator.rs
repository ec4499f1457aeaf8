//! A bump allocator over a range of addresses, and the ticket lock that
//! serializes access to an allocator.

use crate::sync::ticket_lock::TicketLock;
use crate::sync::InterruptState;
use vstd::prelude::*;

verus! {

/// `addr` rounded down to a multiple of `align`.
pub open spec fn round_down(addr: int, align: int) -> int {
    addr - addr % align
}

/// A simple allocator that hands out memory downwards from the end of its
/// range and keeps only the number of live allocations.
///
/// Freeing the most recent allocation gives its bytes back; any other memory
/// comes back only when every allocation has been freed.
#[derive(Debug)]
pub struct BumpAllocator {
    /// The first address of the range.
    start: usize,
    /// The address just past the range.
    end: usize,
    /// The bump pointer: everything from here to `end` is handed out.
    ptr: usize,
    /// The number of live allocations.
    allocations: usize,
}

impl BumpAllocator {
    /// The first address of the range.
    pub closed spec fn spec_start(&self) -> usize {
        self.start
    }

    /// The address just past the range.
    pub closed spec fn spec_end(&self) -> usize {
        self.end
    }

    /// The bump pointer.
    pub closed spec fn spec_ptr(&self) -> usize {
        self.ptr
    }

    /// The number of live allocations.
    pub closed spec fn spec_allocations(&self) -> usize {
        self.allocations
    }

    /// The allocator's invariant: the bump pointer stays inside the range.
    pub open spec fn wf(&self) -> bool {
        self.spec_start() <= self.spec_ptr() <= self.spec_end()
    }

    /// Creates an empty allocator with no memory to hand out.
    pub fn new() -> (r: Self)
        ensures
            r.wf(),
            r.spec_start() == 0,
            r.spec_end() == 0,
            r.spec_ptr() == 0,
            r.spec_allocations() == 0,
    {
        BumpAllocator { start: 0, end: 0, ptr: 0, allocations: 0 }
    }

    /// Gives the allocator the `heap_size` bytes starting at `heap_start`.
    pub fn init(&mut self, heap_start: usize, heap_size: usize)
        requires
            heap_start + heap_size <= usize::MAX,
        ensures
            final(self).wf(),
            final(self).spec_start() == heap_start,
            final(self).spec_end() == heap_start + heap_size,
            final(self).spec_ptr() == heap_start + heap_size,
            final(self).spec_allocations() == old(self).spec_allocations(),
    {
        self.start = heap_start;
        self.end = heap_start + heap_size;
        self.ptr = self.end;
    }

    /// Whether `ptr` is the most recent allocation.
    pub fn is_last_allocation(&self, ptr: usize) -> (r: bool)
        ensures
            r == (ptr == self.spec_ptr()),
    {
        self.ptr == ptr
    }

    /// Allocates `size` bytes aligned to `align`, just below the bump pointer.
    ///
    /// Returns the address of the block, or 0 when the range has no room for it.
    pub fn allocate(&mut self, size: usize, align: usize) -> (r: usize)
        requires
            old(self).wf(),
            align > 0,
            old(self).spec_allocations() < usize::MAX,
        ensures
            final(self).wf(),
            final(self).spec_start() == old(self).spec_start(),
            final(self).spec_end() == old(self).spec_end(),
            ({
                let p = old(self).spec_ptr() as int;
                let fits = size <= p && round_down(p - size, align as int) >= old(self).spec_start();
                &&& fits ==> r == round_down(p - size, align as int) && final(self).spec_ptr() == r
                    && final(self).spec_allocations() == old(self).spec_allocations() + 1
                &&& !fits ==> r == 0 && *final(self) == *old(self)
            }),
    {
        let ptr = self.ptr;
        if ptr < size {
            return 0;
        }
        let new_ptr = ptr - size;
        // Round down to the requested alignment.
        let rem = new_ptr % align;
        assert(rem <= new_ptr) by (nonlinear_arith)
            requires
                rem == new_ptr % align,
                align > 0,
        ;
        let new_ptr = new_ptr - rem;
        if new_ptr < self.start {
            return 0;
        }
        self.ptr = new_ptr;
        self.allocations = self.allocations + 1;
        new_ptr
    }

    /// Frees the `size` bytes at `ptr`.
    ///
    /// The most recent allocation gives its bytes back; once no allocation is
    /// live, the whole range is available again.
    pub fn deallocate(&mut self, ptr: usize, size: usize)
        requires
            old(self).wf(),
            old(self).spec_allocations() > 0,
            ptr == old(self).spec_ptr() ==> ptr + size <= old(self).spec_end(),
        ensures
            final(self).wf(),
            final(self).spec_start() == old(self).spec_start(),
            final(self).spec_end() == old(self).spec_end(),
            final(self).spec_allocations() == old(self).spec_allocations() - 1,
            final(self).spec_ptr() == if ptr == old(self).spec_ptr() {
                ptr + size
            } else if old(self).spec_allocations() == 1 {
                old(self).spec_end() as int
            } else {
                old(self).spec_ptr() as int
            },
    {
        self.allocations = self.allocations - 1;
        if self.is_last_allocation(ptr) {
            self.ptr = ptr + size;
        } else if self.allocations == 0 {
            self.ptr = self.end;
        }
    }
}

impl Default for BumpAllocator {
    fn default() -> (r: Self)
        ensures
            r.wf(),
            r.spec_allocations() == 0,
    {
        Self::new()
    }
}

/// An allocator behind a [`TicketLock`], so that every core serializes its
/// allocations through the lock.
#[derive(Debug)]
pub struct LockedAllocator<A> {
    inner: TicketLock<A>,
}

impl<A> LockedAllocator<A> {
    /// The lock around the allocator.
    pub closed spec fn lock(&self) -> TicketLock<A> {
        self.inner
    }

    /// Puts `inner` behind a new preemtable ticket lock.
    pub fn new(inner: A) -> (r: Self)
        ensures
            r.lock().wf(),
            r.lock().is_idle(),
            r.lock().preemtable(),
            r.lock().data() == inner,
    {
        LockedAllocator { inner: TicketLock::new(inner) }
    }

    /// The lock around the allocator.
    pub fn inner(&self) -> (r: &TicketLock<A>)
        ensures
            *r == self.lock(),
    {
        &self.inner
    }

    /// The lock around the allocator, for taking it.
    pub fn inner_mut(&mut self) -> (r: &mut TicketLock<A>)
        ensures
            *r == old(self).lock(),
            final(self).lock() == *final(r),
    {
        &mut self.inner
    }
}

impl LockedAllocator<BumpAllocator> {
    /// Allocates `size` bytes aligned to `align` under the lock; 0 when out of memory.
    pub fn allocate<I: InterruptState>(&mut self, size: usize, align: usize, is: &mut I) -> (r: usize)
        requires
            old(self).lock().wf(),
            old(self).lock().is_idle(),
            old(self).lock().may_take(old(is)),
            old(self).lock().next() < u64::MAX,
            old(self).lock().data().wf(),
            old(self).lock().data().spec_allocations() < usize::MAX,
            align > 0,
        ensures
            final(self).lock().wf(),
            final(self).lock().is_idle(),
            final(self).lock().data().wf(),
            final(self).lock().preemtable() == old(self).lock().preemtable(),
            final(self).lock().next() == old(self).lock().next() + 1,
            final(is).spec_disable_count() == old(is).spec_disable_count(),
            ({
                let before = old(self).lock().data();
                let p = before.spec_ptr() as int;
                let fits = size <= p && round_down(p - size, align as int) >= before.spec_start();
                let after = final(self).lock().data();
                &&& after.spec_start() == before.spec_start()
                &&& after.spec_end() == before.spec_end()
                &&& fits ==> r == round_down(p - size, align as int) && after.spec_ptr() == r
                    && after.spec_allocations() == before.spec_allocations() + 1
                &&& !fits ==> r == 0 && after == before
            }),
    {
        let guard = self.inner.lock(is);
        let r = self.inner.get_mut(&guard).allocate(size, align);
        self.inner.unlock(guard, is);
        r
    }

    /// Frees the `size` bytes at `ptr` under the lock.
    pub fn deallocate<I: InterruptState>(&mut self, ptr: usize, size: usize, is: &mut I)
        requires
            old(self).lock().wf(),
            old(self).lock().is_idle(),
            old(self).lock().may_take(old(is)),
            old(self).lock().next() < u64::MAX,
            old(self).lock().data().wf(),
            old(self).lock().data().spec_allocations() > 0,
            ptr == old(self).lock().data().spec_ptr() ==> ptr + size <= old(self).lock().data().spec_end(),
        ensures
            final(self).lock().wf(),
            final(self).lock().is_idle(),
            final(self).lock().data().wf(),
            final(self).lock().preemtable() == old(self).lock().preemtable(),
            final(self).lock().next() == old(self).lock().next() + 1,
            final(is).spec_disable_count() == old(is).spec_disable_count(),
            ({
                let before = old(self).lock().data();
                let after = final(self).lock().data();
                &&& after.spec_start() == before.spec_start()
                &&& after.spec_end() == before.spec_end()
                &&& after.spec_allocations() == before.spec_allocations() - 1
                &&& after.spec_ptr() == if ptr == before.spec_ptr() {
                    ptr + size
                } else if before.spec_allocations() == 1 {
                    before.spec_end() as int
                } else {
                    before.spec_ptr() as int
                }
            }),
    {
        let guard = self.inner.lock(is);
        self.inner.get_mut(&guard).deallocate(ptr, size);
        self.inner.unlock(guard, is);
    }
}

} // verus!
