//! Synchronization for tasks of one executor: a mutex owned by at most one
//! task at a time, a condition variable that wakes waiters by bumping a
//! generation counter, and a bounded channel built from the two.
//!
//! Blocking operations are poll steps: each poll either completes or leaves
//! the task to be polled again after the executor is notified.
use crate::fifo::FIFO;
use crate::task::combinators::Polled;
use vstd::prelude::*;

verus! {

/// A mutex for tasks of one executor. It records the executor whose task
/// holds it; a task of another executor finding it held is a fault (waiting
/// would starve, as the release wakes only the holder's executor).
pub struct AsyncMutex<T> {
    value: T,
    holder: Option<usize>,
}

/// Whether `executor` may touch a mutex held by `holder`: it is free, or held
/// by a task of that same executor.
pub open spec fn executor_may_use(holder: Option<usize>, executor: usize) -> bool {
    holder is None || holder == Some(executor)
}

impl<T> AsyncMutex<T> {
    /// The executor whose task holds the mutex, if any.
    pub closed spec fn spec_holder(&self) -> Option<usize> {
        self.holder
    }

    pub open spec fn spec_locked(&self) -> bool {
        self.spec_holder() is Some
    }

    pub closed spec fn spec_value(&self) -> T {
        self.value
    }

    pub fn new(value: T) -> (r: AsyncMutex<T>)
        ensures
            r.spec_holder() is None,
            r.spec_value() == value,
    {
        AsyncMutex { value, holder: None }
    }

    /// One poll of `lock` by a task of `executor`: take the mutex if it is
    /// free; if a task of the same executor holds it, the task is requeued
    /// and polled again. Held by another executor is a fault, which
    /// `requires` leaves out.
    pub fn poll_lock(&mut self, executor: usize) -> (r: Polled<()>)
        requires
            executor_may_use(old(self).spec_holder(), executor),
        ensures
            final(self).spec_holder() == Some(executor),
            !old(self).spec_locked() ==> r == Polled::Ready(()),
            old(self).spec_locked() ==> r is Pending,
            final(self).spec_value() == old(self).spec_value(),
    {
        if self.holder.is_some() {
            Polled::Pending
        } else {
            self.holder = Some(executor);
            Polled::Ready(())
        }
    }

    /// Take the mutex for a task of `executor` if it is free; returns whether
    /// it was. Held by another executor is a fault, which `requires` leaves
    /// out.
    pub fn try_lock(&mut self, executor: usize) -> (r: bool)
        requires
            executor_may_use(old(self).spec_holder(), executor),
        ensures
            r == !old(self).spec_locked(),
            final(self).spec_holder() == Some(executor),
            final(self).spec_value() == old(self).spec_value(),
    {
        if self.holder.is_some() {
            false
        } else {
            self.holder = Some(executor);
            true
        }
    }

    /// The guarded value, while the mutex is held.
    pub fn get_mut(&mut self) -> (r: &mut T)
        requires
            old(self).spec_locked(),
        ensures
            *r == old(self).spec_value(),
            final(self).spec_value() == *final(r),
            final(self).spec_holder() == old(self).spec_holder(),
    {
        &mut self.value
    }

    /// Release the mutex (the guard is dropped); the executor is then
    /// notified.
    pub fn unlock(&mut self)
        ensures
            final(self).spec_holder() is None,
            final(self).spec_value() == old(self).spec_value(),
    {
        self.holder = None;
    }
}

/// A condition variable for tasks of one executor.
pub struct AsyncCondvar {
    generation: u32,
}

impl AsyncCondvar {
    pub closed spec fn spec_generation(&self) -> u32 {
        self.generation
    }

    pub fn new() -> (r: AsyncCondvar)
        ensures
            r.spec_generation() == 0,
    {
        AsyncCondvar { generation: 0 }
    }

    /// The generation a waiter observes before it releases the mutex.
    pub fn generation(&self) -> (r: u32)
        ensures
            r == self.spec_generation(),
    {
        self.generation
    }

    /// One poll of a wait that observed `observed`: done once the generation
    /// has moved on.
    pub fn poll_wait(&self, observed: u32) -> (r: Polled<()>)
        ensures
            self.spec_generation() != observed ==> r == Polled::Ready(()),
            self.spec_generation() == observed ==> r is Pending,
    {
        if self.generation != observed {
            Polled::Ready(())
        } else {
            Polled::Pending
        }
    }

    /// One step of waiting while `condition` holds of the guarded `value`:
    /// done once it no longer holds; otherwise the generation to wait on.
    pub fn wait_while<T, F: FnOnce(&T) -> bool>(&self, value: &T, condition: F) -> (r: Option<u32>)
        requires
            condition.requires((value,)),
        ensures
            r is None ==> condition.ensures((value,), false),
            r matches Some(g) ==> g == self.spec_generation() && condition.ensures((value,), true),
    {
        if condition(value) {
            Some(self.generation)
        } else {
            None
        }
    }

    /// Advance the generation (wrapping), waking every waiter.
    fn bump(&mut self)
        ensures
            final(self).spec_generation() == (if old(self).spec_generation() == u32::MAX {
                0
            } else {
                (old(self).spec_generation() + 1) as u32
            }),
    {
        self.generation = if self.generation == u32::MAX {
            0
        } else {
            self.generation + 1
        };
    }

    /// Wake the waiters; all are woken, as by `notify_all`.
    pub fn notify_one(&mut self)
        ensures
            final(self).spec_generation() != old(self).spec_generation(),
            final(self).spec_generation() == (if old(self).spec_generation() == u32::MAX {
                0
            } else {
                (old(self).spec_generation() + 1) as u32
            }),
    {
        self.bump()
    }

    /// Wake every waiter.
    pub fn notify_all(&mut self)
        ensures
            final(self).spec_generation() != old(self).spec_generation(),
            final(self).spec_generation() == (if old(self).spec_generation() == u32::MAX {
                0
            } else {
                (old(self).spec_generation() + 1) as u32
            }),
    {
        self.bump()
    }
}

/// A bounded channel for tasks of one executor.
pub struct AsyncChannel<T, const CAPACITY: usize> {
    buf: AsyncMutex<FIFO<T, CAPACITY>>,
    cond: AsyncCondvar,
}

impl<T, const CAPACITY: usize> View for AsyncChannel<T, CAPACITY> {
    type V = Seq<T>;

    /// The items in transit, oldest first. Whether the buffer's mutex is
    /// held, and the condition variable's notification count, are left out:
    /// `spec_holder` and `spec_generation` give them.
    closed spec fn view(&self) -> Seq<T> {
        self.buf.value@
    }
}

impl<T, const CAPACITY: usize> AsyncChannel<T, CAPACITY> {
    pub closed spec fn wf(&self) -> bool {
        self.buf.value.wf()
    }

    /// The executor whose task holds the channel's mutex, if any.
    pub closed spec fn spec_holder(&self) -> Option<usize> {
        self.buf.holder
    }

    /// Whether a task holds the channel's mutex.
    pub open spec fn spec_locked(&self) -> bool {
        self.spec_holder() is Some
    }

    pub closed spec fn spec_generation(&self) -> u32 {
        self.cond.generation
    }

    pub fn new() -> (r: AsyncChannel<T, CAPACITY>)
        ensures
            r.wf(),
            r@ == Seq::<T>::empty(),
            r.spec_holder() is None,
    {
        AsyncChannel { buf: AsyncMutex::new(FIFO::new()), cond: AsyncCondvar::new() }
    }

    /// Append `item` and wake the waiters, for a task of `executor`; hands
    /// `item` back if the mutex is held or the buffer is full. The mutex held
    /// by another executor is a fault, which `requires` leaves out.
    pub fn try_send(&mut self, item: T, executor: usize) -> (r: Result<(), T>)
        requires
            old(self).wf(),
            executor_may_use(old(self).spec_holder(), executor),
        ensures
            final(self).wf(),
            final(self).spec_holder() == old(self).spec_holder(),
            (old(self).spec_locked() || old(self)@.len() == CAPACITY) ==> r == Err::<(), T>(item)
                && final(self)@ == old(self)@ && final(self).spec_generation() == old(self).spec_generation(),
            !(old(self).spec_locked() || old(self)@.len() == CAPACITY) ==> r is Ok
                && final(self)@ == old(self)@.push(item)
                && final(self).spec_generation() != old(self).spec_generation(),
    {
        if self.buf.holder.is_some() || self.buf.value.is_full() {
            return Err(item);
        }
        let _ = self.buf.value.push(item);
        self.cond.notify_all();
        Ok(())
    }

    /// Take the oldest item, waking the waiters, for a task of `executor`;
    /// `None` if the mutex is held or the buffer is empty. The mutex held by
    /// another executor is a fault, which `requires` leaves out.
    pub fn try_recv(&mut self, executor: usize) -> (r: Option<T>)
        requires
            old(self).wf(),
            executor_may_use(old(self).spec_holder(), executor),
        ensures
            final(self).wf(),
            final(self).spec_holder() == old(self).spec_holder(),
            (old(self).spec_locked() || old(self)@.len() == 0) ==> r is None && final(self)@ == old(self)@
                && final(self).spec_generation() == old(self).spec_generation(),
            !(old(self).spec_locked() || old(self)@.len() == 0) ==> r == Some(old(self)@[0])
                && final(self)@ == old(self)@.drop_first()
                && final(self).spec_generation() != old(self).spec_generation(),
    {
        if self.buf.holder.is_some() {
            return None;
        }
        let item = self.buf.value.pop();
        if item.is_some() {
            self.cond.notify_all();
        }
        item
    }

    /// One poll of `send` of the item held in `item`: completes, waking the
    /// waiters, once the mutex is free and the buffer has room; otherwise the
    /// item is kept and the task waits.
    pub fn poll_send(&mut self, item: &mut Option<T>, executor: usize) -> (r: Polled<()>)
        requires
            old(self).wf(),
            executor_may_use(old(self).spec_holder(), executor),
            *old(item) is Some,
        ensures
            final(self).wf(),
            final(self).spec_holder() == old(self).spec_holder(),
            (old(self).spec_locked() || old(self)@.len() == CAPACITY) ==> r is Pending && *final(item) == *old(item)
                && final(self)@ == old(self)@,
            !(old(self).spec_locked() || old(self)@.len() == CAPACITY) ==> r == Polled::Ready(()) && *final(item) is None
                && final(self)@ == old(self)@.push((*old(item))->0),
    {
        if self.buf.holder.is_some() || self.buf.value.is_full() {
            return Polled::Pending;
        }
        let v = item.take().unwrap();
        let _ = self.buf.value.push(v);
        self.cond.notify_all();
        Polled::Ready(())
    }

    /// One poll of `recv`: the oldest item, waking the waiters, once the mutex
    /// is free and the buffer is not empty; otherwise the task waits.
    pub fn poll_recv(&mut self, executor: usize) -> (r: Polled<T>)
        requires
            old(self).wf(),
            executor_may_use(old(self).spec_holder(), executor),
        ensures
            final(self).wf(),
            final(self).spec_holder() == old(self).spec_holder(),
            (old(self).spec_locked() || old(self)@.len() == 0) ==> r is Pending && final(self)@ == old(self)@,
            !(old(self).spec_locked() || old(self)@.len() == 0) ==> r == Polled::Ready(old(self)@[0])
                && final(self)@ == old(self)@.drop_first(),
    {
        match self.try_recv(executor) {
            Some(v) => Polled::Ready(v),
            None => Polled::Pending,
        }
    }
}

} // verus!
