//! Counting semaphore.
use crate::notify::{queued, without_thread, Notify, WaitEntry};
use crate::protected::{BarrierResult, TimedOut};
use vstd::prelude::*;

verus! {

pub struct Semaphore {
    count: u32,
    notify: Notify,
}

impl Semaphore {
    /// The wait queue is well formed.
    pub closed spec fn wf(&self) -> bool {
        self.notify.wf()
    }

    /// The current count.
    pub closed spec fn count(&self) -> u32 {
        self.count
    }

    /// The threads waiting for the count to become positive, in wake order.
    pub closed spec fn waiters(&self) -> Seq<WaitEntry> {
        self.notify@
    }

    /// Create a semaphore with the given initial count.
    pub fn new(initial: u32) -> (r: Semaphore)
        ensures
            r.wf(),
            r.count() == initial,
            r.waiters().len() == 0,
    {
        Semaphore { count: initial, notify: Notify::new() }
    }

    /// One step of a blocking acquire by `waiter`: decrement the count if it
    /// is positive, otherwise queue `waiter` until a release.
    pub fn acquire(&mut self, waiter: WaitEntry) -> (r: BarrierResult<()>)
        requires
            old(self).wf(),
        ensures
            final(self).wf(),
            old(self).count() > 0 ==> r is Done && final(self).count() == old(self).count() - 1
                && final(self).waiters() == old(self).waiters(),
            old(self).count() == 0 ==> r is Wait && final(self).count() == 0
                && final(self).waiters() == queued(old(self).waiters(), waiter),
    {
        if self.count > 0 {
            self.count = self.count - 1;
            BarrierResult::Done(())
        } else {
            BarrierResult::Wait(self.notify.arm(waiter))
        }
    }

    /// Like [`acquire`](Self::acquire), bounded by a deadline: once the
    /// previous wait of `waiter` has timed out, it is taken off the wait queue
    /// and `Err(TimedOut)` is returned.
    pub fn acquire_until(&mut self, waiter: WaitEntry, wait_timed_out: bool) -> (r: Result<
        BarrierResult<()>,
        TimedOut,
    >)
        requires
            old(self).wf(),
        ensures
            final(self).wf(),
            wait_timed_out ==> r is Err && final(self).count() == old(self).count()
                && final(self).waiters() == without_thread(old(self).waiters(), waiter.thread_id),
            !wait_timed_out ==> (r matches Ok(b) && (old(self).count() > 0 ==> b is Done
                && final(self).count() == old(self).count() - 1) && (old(self).count() == 0
                ==> b is Wait && final(self).count() == 0 && final(self).waiters() == queued(
                old(self).waiters(),
                waiter,
            ))),
    {
        if wait_timed_out {
            let _ = self.notify.remove(waiter.thread_id);
            return Err(TimedOut);
        }
        Ok(self.acquire(waiter))
    }

    /// Decrement the count if positive; return `true` on success, `false` if
    /// the count is zero.
    pub fn try_acquire(&mut self) -> (r: bool)
        ensures
            r == (old(self).count() > 0),
            r ==> final(self).count() == old(self).count() - 1,
            !r ==> final(self).count() == old(self).count(),
            final(self).waiters() == old(self).waiters(),
            final(self).wf() == old(self).wf(),
    {
        if self.count > 0 {
            self.count = self.count - 1;
            true
        } else {
            false
        }
    }

    /// Increment the count, saturating at `u32::MAX`, and wake the first
    /// waiter if any; returns the woken waiter.
    pub fn release(&mut self) -> (r: Option<WaitEntry>)
        requires
            old(self).wf(),
        ensures
            final(self).wf(),
            final(self).count() == (if old(self).count() == u32::MAX {
                u32::MAX
            } else {
                (old(self).count() + 1) as u32
            }),
            old(self).waiters().len() == 0 ==> r is None && final(self).waiters() == old(self).waiters(),
            old(self).waiters().len() > 0 ==> r == Some(old(self).waiters()[0]) && final(self).waiters()
                == old(self).waiters().drop_first(),
    {
        self.count = self.count.saturating_add(1);
        self.notify.notify_one()
    }

    /// Current count.
    pub fn available(&self) -> (r: u32)
        ensures
            r == self.count(),
    {
        self.count
    }
}

} // verus!
