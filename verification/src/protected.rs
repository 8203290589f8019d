//! Closure-scoped exclusive access to a wrapped value, and the outcome of one
//! iteration of a block-and-retry barrier.
use crate::thread::RawThread;
use crate::time::Instant;
use vstd::prelude::*;

verus! {

/// Witness that the current thread has been queued on a wait queue inside a
/// barrier closure.
pub struct WaitMarker {
    seal: (),
}

impl WaitMarker {
    pub(crate) fn new() -> (r: WaitMarker) {
        WaitMarker { seal: () }
    }
}

/// Outcome of a barrier closure iteration.
pub enum BarrierResult<R> {
    /// Return this value from the barrier.
    Done(R),
    /// Suspend the calling thread; on wake, retry the closure.
    Wait(WaitMarker),
}

} // verus!

verus! {

/// A bounded wait ended because its deadline passed.
#[derive(Copy, Clone, Debug, PartialEq, Eq, Structural)]
pub struct TimedOut;

} // verus!

verus! {

/// A value reached only inside a closure, while the lock that protects it is
/// held (witnessed by the key handed to the closure).
pub struct Protected<T> {
    inner: T,
}

impl<T> Protected<T> {
    pub closed spec fn spec_value(&self) -> T {
        self.inner
    }

    pub fn new(value: T) -> (r: Protected<T>)
        ensures
            r.spec_value() == value,
    {
        Protected { inner: value }
    }

    /// Run `f` with the key of the held lock and exclusive access to the
    /// value; the value is left as `f` left it.
    pub fn with_key<K, R, F: FnOnce(K, &mut T) -> R>(&mut self, key: K, f: F) -> (r: R)
        requires
            forall|w: &mut T| f.requires((key, w)),
        ensures
            exists|w: &mut T| *w == old(self).spec_value() && final(self).spec_value() == *final(w) && f.ensures(
                (key, w),
                r,
            ),
    {
        f(key, &mut self.inner)
    }

    /// One iteration of a block-and-retry barrier: run `f` with the key and
    /// the value; `Wait` asks the caller to suspend until woken and run the
    /// iteration again.
    pub fn with_barrier<K, R, F: FnOnce(K, &mut T) -> BarrierResult<R>>(&mut self, key: K, f: F) -> (r: BarrierResult<R>)
        requires
            forall|w: &mut T| f.requires((key, w)),
        ensures
            exists|w: &mut T| *w == old(self).spec_value() && final(self).spec_value() == *final(w) && f.ensures(
                (key, w),
                r,
            ),
    {
        f(key, &mut self.inner)
    }

    /// One iteration of a barrier bounded by `deadline`: as
    /// [`with_barrier`](Self::with_barrier), and on `Wait` the waiting thread's
    /// block is bounded by the deadline. On wake the thread reads the outcome
    /// with `RawThread::take_last_wait_outcome`, and stops with
    /// `Err(TimedOut)` if the deadline passed.
    pub fn with_barrier_until<K, R, F: FnOnce(K, &mut T) -> BarrierResult<R>>(
        &mut self,
        key: K,
        f: F,
        thread: &mut RawThread,
        deadline: Instant,
    ) -> (r: BarrierResult<R>)
        requires
            forall|w: &mut T| f.requires((key, w)),
        ensures
            exists|w: &mut T| *w == old(self).spec_value() && final(self).spec_value() == *final(w) && f.ensures(
                (key, w),
                r,
            ),
            r is Wait ==> final(thread).spec_pending_block_deadline() == Some(deadline),
            r is Done ==> *final(thread) == *old(thread),
            final(thread).spec_priority() == old(thread).spec_priority(),
            final(thread).wf() == old(thread).wf(),
    {
        let r = f(key, &mut self.inner);
        if let BarrierResult::Wait(_) = &r {
            thread.set_pending_block_deadline(Some(deadline));
        }
        r
    }
}

} // verus!
