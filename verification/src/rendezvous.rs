//! Rendezvous: a synchronized call from one thread into another. The caller
//! side hands an argument over and waits for the result; the callee side
//! waits for an argument, runs a closure on it and hands the result back.
//!
//! Each blocking operation is one step under the lock: it either completes
//! or queues the calling thread on the shared wait queue, and is run again
//! once the thread is woken.
use crate::notify::{queued, record_woken, woken_by_one, Notify, WaitEntry};
use crate::protected::BarrierResult;
use vstd::prelude::*;

verus! {

/// The queue left after waking its first waiter, if any.
pub open spec fn after_wake_one(s: Seq<WaitEntry>) -> Seq<WaitEntry> {
    if s.len() == 0 {
        s
    } else {
        s.drop_first()
    }
}

/// The state shared by both halves of a rendezvous.
pub struct LockedRendezvous<A, R> {
    arg: Option<A>,
    result: Option<R>,
    notify: Notify,
    woken: Vec<WaitEntry>,
}

impl<A, R> LockedRendezvous<A, R> {
    /// The argument handed over and not yet taken.
    pub closed spec fn spec_arg(&self) -> Option<A> {
        self.arg
    }

    /// The result handed back and not yet taken.
    pub closed spec fn spec_result(&self) -> Option<R> {
        self.result
    }

    /// The threads waiting on either side, in wake order.
    pub closed spec fn waiters(&self) -> Seq<WaitEntry> {
        self.notify@
    }

    pub closed spec fn wf(&self) -> bool {
        self.notify.wf()
    }

    /// The waiters woken and not yet handed to the kernel, in wake order.
    pub closed spec fn woken(&self) -> Seq<WaitEntry> {
        self.woken@
    }

    /// Hand the woken waiters to the kernel, which resumes them.
    pub fn take_woken(&mut self) -> (r: Vec<WaitEntry>)
        ensures
            r@ == old(self).woken(),
            final(self).woken().len() == 0,
            final(self).spec_arg() == old(self).spec_arg(),
            final(self).spec_result() == old(self).spec_result(),
            final(self).waiters() == old(self).waiters(),
            final(self).wf() == old(self).wf(),
    {
        let mut w: Vec<WaitEntry> = Vec::new();
        std::mem::swap(&mut w, &mut self.woken);
        w
    }

    pub fn new() -> (r: LockedRendezvous<A, R>)
        ensures
            r.wf(),
            r.spec_arg() is None,
            r.spec_result() is None,
            r.waiters() == Seq::<WaitEntry>::empty(),
            r.woken().len() == 0,
    {
        LockedRendezvous { arg: None, result: None, notify: Notify::new(), woken: Vec::new() }
    }

    /// Split into the caller half and the callee half.
    pub fn split(&mut self) -> (r: (LockedEntry<A, R>, LockedAccept<A, R>))
        ensures
            *final(self) == *old(self),
    {
        (LockedEntry { marker: core::marker::PhantomData }, LockedAccept { marker: core::marker::PhantomData })
    }

    /// Hand `arg` over and wake the first waiter.
    pub fn post(&mut self, arg: A)
        requires
            old(self).wf(),
        ensures
            final(self).wf(),
            final(self).spec_arg() == Some(arg),
            final(self).spec_result() == old(self).spec_result(),
            final(self).waiters() == after_wake_one(old(self).waiters()),
            final(self).woken() == old(self).woken() + woken_by_one(old(self).waiters()),
    {
        self.arg = Some(arg);
        let w = self.notify.notify_one();
        record_woken(&mut self.woken, w);
    }

    /// One step of waiting for the result: take it if it is there, else
    /// queue `waiter`.
    pub fn collect(&mut self, waiter: WaitEntry) -> (r: BarrierResult<R>)
        requires
            old(self).wf(),
        ensures
            final(self).wf(),
            final(self).woken() == old(self).woken(),
            final(self).spec_arg() == old(self).spec_arg(),
            old(self).spec_result() matches Some(v) ==> r == BarrierResult::<R>::Done(v)
                && final(self).spec_result() is None && final(self).waiters() == old(self).waiters(),
            old(self).spec_result() is None ==> r is Wait && final(self).spec_result() is None
                && final(self).waiters() == queued(old(self).waiters(), waiter),
    {
        match self.result.take() {
            Some(v) => BarrierResult::Done(v),
            None => BarrierResult::Wait(self.notify.arm(waiter)),
        }
    }

    /// One step of waiting for an argument: take it if it is there, else
    /// queue `waiter`.
    pub fn take_arg(&mut self, waiter: WaitEntry) -> (r: BarrierResult<A>)
        requires
            old(self).wf(),
        ensures
            final(self).wf(),
            final(self).woken() == old(self).woken(),
            final(self).spec_result() == old(self).spec_result(),
            old(self).spec_arg() matches Some(a) ==> r == BarrierResult::<A>::Done(a)
                && final(self).spec_arg() is None && final(self).waiters() == old(self).waiters(),
            old(self).spec_arg() is None ==> r is Wait && final(self).spec_arg() is None
                && final(self).waiters() == queued(old(self).waiters(), waiter),
    {
        match self.arg.take() {
            Some(a) => BarrierResult::Done(a),
            None => BarrierResult::Wait(self.notify.arm(waiter)),
        }
    }

    /// Hand the result back and wake the first waiter.
    pub fn reply(&mut self, result: R)
        requires
            old(self).wf(),
        ensures
            final(self).wf(),
            final(self).spec_arg() == old(self).spec_arg(),
            final(self).spec_result() == Some(result),
            final(self).waiters() == after_wake_one(old(self).waiters()),
            final(self).woken() == old(self).woken() + woken_by_one(old(self).waiters()),
    {
        self.result = Some(result);
        let w = self.notify.notify_one();
        record_woken(&mut self.woken, w);
    }
}

/// The caller half of a rendezvous.
pub struct LockedEntry<A, R> {
    marker: core::marker::PhantomData<(A, R)>,
}

impl<A, R> LockedEntry<A, R> {
    /// One step of a call: on the first step (`arg` still holds the
    /// argument) hand the argument over and wake the callee; then take the
    /// result if it is there, else queue `waiter` until the callee replies.
    pub fn entry(&self, rendezvous: &mut LockedRendezvous<A, R>, waiter: WaitEntry, arg: &mut Option<A>) -> (r:
        BarrierResult<R>)
        requires
            old(rendezvous).wf(),
        ensures
            final(rendezvous).wf(),
            *final(arg) is None,
            ({
                let arg1 = if *old(arg) is Some { *old(arg) } else { old(rendezvous).spec_arg() };
                let w1 = if *old(arg) is Some {
                    after_wake_one(old(rendezvous).waiters())
                } else {
                    old(rendezvous).waiters()
                };
                &&& final(rendezvous).spec_arg() == arg1
                &&& final(rendezvous).spec_result() is None
                &&& final(rendezvous).woken() == old(rendezvous).woken() + (if *old(arg) is Some {
                    woken_by_one(old(rendezvous).waiters())
                } else {
                    Seq::<WaitEntry>::empty()
                })
                &&& old(rendezvous).spec_result() matches Some(v) ==> r == BarrierResult::<R>::Done(v)
                    && final(rendezvous).waiters() == w1
                &&& old(rendezvous).spec_result() is None ==> r is Wait && final(rendezvous).waiters()
                    == queued(w1, waiter)
            }),
    {
        if let Some(a) = arg.take() {
            rendezvous.post(a);
        }
        rendezvous.collect(waiter)
    }
}

/// The callee half of a rendezvous.
pub struct LockedAccept<A, R> {
    marker: core::marker::PhantomData<(A, R)>,
}

impl<A, R> LockedAccept<A, R> {
    /// One step of serving a call: if an argument is there, take it, run
    /// `closure` on it, hand the result back and wake the caller; else queue
    /// `waiter` until an argument arrives.
    pub fn accept<F: FnOnce(A) -> R>(&self, rendezvous: &mut LockedRendezvous<A, R>, waiter: WaitEntry, closure: F) -> (r:
        BarrierResult<()>)
        requires
            old(rendezvous).wf(),
            old(rendezvous).spec_arg() matches Some(a) ==> closure.requires((a,)),
        ensures
            final(rendezvous).wf(),
            final(rendezvous).spec_arg() is None,
            old(rendezvous).spec_arg() matches Some(a) ==> r is Done && (final(rendezvous).spec_result() matches Some(res)
                && closure.ensures((a,), res)) && final(rendezvous).waiters() == after_wake_one(old(rendezvous).waiters())
                && final(rendezvous).woken() == old(rendezvous).woken() + woken_by_one(old(rendezvous).waiters()),
            old(rendezvous).spec_arg() is None ==> r is Wait && final(rendezvous).woken() == old(rendezvous).woken()
                && final(rendezvous).spec_result() == old(rendezvous).spec_result() && final(rendezvous).waiters() == queued(
                old(rendezvous).waiters(),
                waiter,
            ),
    {
        match rendezvous.take_arg(waiter) {
            BarrierResult::Done(a) => {
                let res = closure(a);
                rendezvous.reply(res);
                BarrierResult::Done(())
            },
            BarrierResult::Wait(m) => BarrierResult::Wait(m),
        }
    }
}

} // verus!
