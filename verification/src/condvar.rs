//! Condition variable over a priority-ordered wait queue. Waiting queues the
//! thread before the mutex is released, so a notifier that takes the mutex
//! right after cannot miss it.
use crate::notify::{queued, without_thread, Notify, WaitEntry};
use crate::priority::rank;
use crate::protected::{BarrierResult, TimedOut, WaitMarker};
use crate::thread::RawThread;
use crate::time::Instant;
use vstd::prelude::*;

verus! {

pub struct LockedCondvar {
    notifier: Notify,
}

impl View for LockedCondvar {
    type V = Seq<WaitEntry>;

    /// The waiting threads, in wake order.
    closed spec fn view(&self) -> Seq<WaitEntry> {
        self.notifier@
    }
}

impl LockedCondvar {
    pub closed spec fn wf(&self) -> bool {
        self.notifier.wf()
    }

    pub fn new() -> (r: LockedCondvar)
        ensures
            r.wf(),
            r@ == Seq::<WaitEntry>::empty(),
    {
        LockedCondvar { notifier: Notify::new() }
    }

    /// Queue `waiter`, then run `unlock` (which releases the mutex) before
    /// the waiter is suspended; the mutex is taken again on wake. `unlock` is
    /// handed the wait queue as it stands once the waiter is queued, so the
    /// mutex is released only after that and a notify cannot be missed.
    pub fn wait_with<F: FnOnce(Ghost<Seq<WaitEntry>>)>(&mut self, waiter: WaitEntry, unlock: F)
        requires
            old(self).wf(),
            unlock.requires((Ghost(queued(old(self)@, waiter)),)),
        ensures
            final(self).wf(),
            final(self)@ == queued(old(self)@, waiter),
            unlock.ensures((Ghost(queued(old(self)@, waiter)),), ()),
    {
        self.notifier.wait_with(waiter, unlock)
    }

    /// Queue `waiter`, then run `unlock` (which releases the mutex), with the
    /// waiting thread's block bounded by `deadline`. As with
    /// [`wait_with`](Self::wait_with), the mutex is released only once the
    /// waiter is queued. On wake, [`finish_wait_until`](Self::finish_wait_until)
    /// gives the outcome.
    pub fn wait_until<F: FnOnce(Ghost<Seq<WaitEntry>>)>(
        &mut self,
        waiter: WaitEntry,
        unlock: F,
        thread: &mut RawThread,
        deadline: Instant,
    )
        requires
            old(self).wf(),
            unlock.requires((Ghost(queued(old(self)@, waiter)),)),
        ensures
            final(self).wf(),
            final(self)@ == queued(old(self)@, waiter),
            unlock.ensures((Ghost(queued(old(self)@, waiter)),), ()),
            final(thread).spec_pending_block_deadline() == Some(deadline),
            final(thread).spec_priority() == old(thread).spec_priority(),
            final(thread).wf() == old(thread).wf(),
    {
        self.notifier.wait_until_with(waiter, unlock, thread, deadline)
    }

    /// The end of a bounded wait, once the thread runs again: the mutex is
    /// taken again (`relock`). If the deadline passed before a notify, the
    /// guard is then dropped, releasing the mutex (`release`), and
    /// `Err(TimedOut)` is returned; otherwise `Ok`, with the mutex held.
    pub fn finish_wait_until<F: FnOnce(), G: FnOnce()>(thread: &mut RawThread, relock: F, release: G) -> (r: Result<(), TimedOut>)
        requires
            relock.requires(()),
            release.requires(()),
        ensures
            relock.ensures((), ()),
            old(thread).spec_wait_timed_out() ==> r == Err::<(), TimedOut>(TimedOut) && release.ensures((), ()),
            !old(thread).spec_wait_timed_out() ==> r is Ok,
            !final(thread).spec_wait_timed_out(),
            final(thread).spec_priority() == old(thread).spec_priority(),
            final(thread).wf() == old(thread).wf(),
    {
        let outcome = thread.take_last_wait_outcome();
        relock();
        match outcome {
            Err(e) => {
                release();
                Err(e)
            },
            Ok(()) => Ok(()),
        }
    }

    /// Queue `waiter`; the marker suspends it until notified.
    pub fn wait(&mut self, waiter: WaitEntry) -> (r: WaitMarker)
        requires
            old(self).wf(),
        ensures
            final(self).wf(),
            final(self)@ == queued(old(self)@, waiter),
    {
        self.notifier.arm(waiter)
    }

    /// One step of waiting while `condition` holds of the guarded `value`:
    /// done once it no longer holds, else queue `waiter`.
    pub fn wait_while<T, F: FnOnce(&T) -> bool>(&mut self, waiter: WaitEntry, value: &T, condition: F) -> (r:
        BarrierResult<()>)
        requires
            old(self).wf(),
            condition.requires((value,)),
        ensures
            final(self).wf(),
            r is Done ==> final(self)@ == old(self)@ && condition.ensures((value,), false),
            r is Wait ==> final(self)@ == queued(old(self)@, waiter) && condition.ensures((value,), true),
    {
        if condition(value) {
            BarrierResult::Wait(self.notifier.arm(waiter))
        } else {
            BarrierResult::Done(())
        }
    }

    /// Like [`wait_while`](Self::wait_while), bounded by a deadline: once the
    /// previous wait of `waiter` has timed out, it is taken off the queue and
    /// `Err(TimedOut)` is returned without looking at the condition again.
    pub fn wait_while_until<T, F: FnOnce(&T) -> bool>(
        &mut self,
        waiter: WaitEntry,
        value: &T,
        condition: F,
        wait_timed_out: bool,
    ) -> (r: Result<BarrierResult<()>, TimedOut>)
        requires
            old(self).wf(),
            condition.requires((value,)),
        ensures
            final(self).wf(),
            wait_timed_out ==> r == Err::<BarrierResult<()>, TimedOut>(TimedOut) && final(self)@
                == without_thread(old(self)@, waiter.thread_id),
            !wait_timed_out ==> (r matches Ok(b) && (b is Done ==> final(self)@ == old(self)@
                && condition.ensures((value,), false)) && (b is Wait ==> final(self)@ == queued(
                old(self)@,
                waiter,
            ) && condition.ensures((value,), true))),
    {
        if wait_timed_out {
            let _ = self.notifier.remove(waiter.thread_id);
            return Err(TimedOut);
        }
        Ok(self.wait_while(waiter, value, condition))
    }

    /// Wake the highest-priority waiter, if any.
    pub fn notify_one(&mut self) -> (r: Option<WaitEntry>)
        requires
            old(self).wf(),
        ensures
            final(self).wf(),
            old(self)@.len() == 0 ==> r is None && final(self)@ == old(self)@,
            old(self)@.len() > 0 ==> r == Some(old(self)@[0]) && final(self)@ == old(self)@.drop_first(),
            r matches Some(e) ==> forall|i: int|
                0 <= i < old(self)@.len() ==> rank(#[trigger] old(self)@[i].priority) <= rank(e.priority),
    {
        self.notifier.notify_one()
    }

    /// Wake every waiter, in wake order.
    pub fn notify_all(&mut self) -> (r: Vec<WaitEntry>)
        requires
            old(self).wf(),
        ensures
            final(self).wf(),
            r@ == old(self)@,
            final(self)@.len() == 0,
    {
        self.notifier.notify_all()
    }
}

} // verus!
