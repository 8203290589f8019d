//! Bounded multi-producer, single-consumer channel over a `FIFO`, with wait
//! queues for blocked senders and receivers.
//!
//! Blocking operations are split into steps: one step either completes the
//! operation or queues the caller on the matching wait queue and asks the
//! kernel to suspend it; the kernel runs the step again once the caller is
//! woken. The waiters an operation wakes are collected for the kernel to
//! resume (`take_woken`).
use crate::fifo::FIFO;
use crate::notify::{queued, record_woken, without_thread, woken_by_one, Notify, WaitEntry};
use crate::protected::{BarrierResult, TimedOut, WaitMarker};
use vstd::prelude::*;

verus! {

#[derive(PartialEq, Eq, Structural, Clone, Copy, Debug)]
pub enum TryRecvError {
    Empty,
}

#[derive(PartialEq, Eq, Clone, Copy, Debug)]
pub enum TrySendError<T> {
    Full(T),
}

pub struct LockedChannel<T, const CAPACITY: usize> {
    receiver_acquired: bool,
    fifo: FIFO<T, CAPACITY>,
    senders: Notify,
    receivers: Notify,
    woken: Vec<WaitEntry>,
}

impl<T, const CAPACITY: usize> View for LockedChannel<T, CAPACITY> {
    type V = Seq<T>;

    /// The items in transit, oldest first. The receiver flag, the two wait
    /// queues and the woken waiters are left out: `receiver_taken`,
    /// `waiting_senders`, `waiting_receivers` and `woken` give them.
    closed spec fn view(&self) -> Seq<T> {
        self.fifo@
    }
}

impl<T, const CAPACITY: usize> LockedChannel<T, CAPACITY> {
    /// The buffer and both wait queues are well formed.
    pub closed spec fn wf(&self) -> bool {
        &&& self.fifo.wf()
        &&& self.senders.wf()
        &&& self.receivers.wf()
    }

    /// The senders waiting for a free slot, in wake order.
    pub closed spec fn waiting_senders(&self) -> Seq<WaitEntry> {
        self.senders@
    }

    /// The receivers waiting for an item, in wake order.
    pub closed spec fn waiting_receivers(&self) -> Seq<WaitEntry> {
        self.receivers@
    }

    /// Whether the receiving end has been handed out.
    pub closed spec fn receiver_taken(&self) -> bool {
        self.receiver_acquired
    }

    /// The waiters woken and not yet handed to the kernel, in wake order.
    pub closed spec fn woken(&self) -> Seq<WaitEntry> {
        self.woken@
    }

    /// Hand the woken waiters to the kernel, which resumes them.
    pub fn take_woken(&mut self) -> (r: Vec<WaitEntry>)
        ensures
            r@ == old(self).woken(),
            final(self).woken().len() == 0,
            final(self)@ == old(self)@,
            final(self).wf() == old(self).wf(),
            final(self).waiting_senders() == old(self).waiting_senders(),
            final(self).waiting_receivers() == old(self).waiting_receivers(),
            final(self).receiver_taken() == old(self).receiver_taken(),
    {
        let mut w: Vec<WaitEntry> = Vec::new();
        std::mem::swap(&mut w, &mut self.woken);
        w
    }

    pub fn new() -> (r: LockedChannel<T, CAPACITY>)
        ensures
            r.wf(),
            r@ == Seq::<T>::empty(),
            r.waiting_senders().len() == 0,
            r.waiting_receivers().len() == 0,
            !r.receiver_taken(),
            r.woken().len() == 0,
    {
        LockedChannel {
            receiver_acquired: false,
            fifo: FIFO::new(),
            senders: Notify::new(),
            receivers: Notify::new(),
            woken: Vec::new(),
        }
    }

    /// Take the oldest item, waking the first waiting sender; `Err(Empty)`
    /// if there is none.
    pub fn try_recv(&mut self) -> (r: Result<T, TryRecvError>)
        requires
            old(self).wf(),
        ensures
            final(self).wf(),
            old(self)@.len() == 0 ==> final(self).woken() == old(self).woken(),
            old(self)@.len() > 0 ==> final(self).woken() == old(self).woken() + woken_by_one(old(self).waiting_senders()),
            final(self).waiting_receivers() == old(self).waiting_receivers(),
            final(self).receiver_taken() == old(self).receiver_taken(),
            old(self)@.len() == 0 ==> r == Err::<T, TryRecvError>(TryRecvError::Empty) && final(self)@ == old(self)@ && final(self).waiting_senders() == old(self).waiting_senders(),
            old(self)@.len() > 0 ==> r == Ok::<T, TryRecvError>(old(self)@[0]) && final(self)@ == old(self)@.drop_first() && final(self).waiting_senders() == (if old(self).waiting_senders().len()
                == 0 {
                old(self).waiting_senders()
            } else {
                old(self).waiting_senders().drop_first()
            }),
    {
        match self.fifo.pop() {
            Some(item) => {
                let w = self.senders.notify_one();
                record_woken(&mut self.woken, w);
                Ok(item)
            },
            None => Err(TryRecvError::Empty),
        }
    }

    /// One step of a blocking receive by `waiter`: take the oldest item and
    /// wake the first waiting sender, or, if there is none, queue `waiter` on
    /// the receivers' wait queue.
    pub fn recv(&mut self, waiter: WaitEntry) -> (r: BarrierResult<T>)
        requires
            old(self).wf(),
        ensures
            final(self).wf(),
            old(self)@.len() == 0 ==> final(self).woken() == old(self).woken(),
            old(self)@.len() > 0 ==> final(self).woken() == old(self).woken() + woken_by_one(old(self).waiting_senders()),
            final(self).receiver_taken() == old(self).receiver_taken(),
            old(self)@.len() == 0 ==> r is Wait && final(self)@ == old(self)@
                && final(self).waiting_receivers() == queued(old(self).waiting_receivers(), waiter)
                && final(self).waiting_senders() == old(self).waiting_senders(),
            old(self)@.len() > 0 ==> r == BarrierResult::<T>::Done(old(self)@[0]) && final(self)@
                == old(self)@.drop_first() && final(self).waiting_receivers() == old(self).waiting_receivers() && final(self).waiting_senders() == (if old(self).waiting_senders().len() == 0 {
                old(self).waiting_senders()
            } else {
                old(self).waiting_senders().drop_first()
            }),
    {
        match self.fifo.pop() {
            Some(v) => {
                let w = self.senders.notify_one();
                record_woken(&mut self.woken, w);
                BarrierResult::Done(v)
            },
            None => BarrierResult::Wait(self.receivers.arm(waiter)),
        }
    }

    /// One step of a blocking send by `waiter` of the item held in `item`:
    /// append it and wake the first waiting receiver, or, if the buffer is
    /// full, keep the item and queue `waiter` on the senders' wait queue.
    pub fn send(&mut self, waiter: WaitEntry, item: &mut Option<T>) -> (r: BarrierResult<()>)
        requires
            old(self).wf(),
            *old(item) is Some,
        ensures
            final(self).wf(),
            old(self)@.len() == CAPACITY ==> final(self).woken() == old(self).woken(),
            old(self)@.len() < CAPACITY ==> final(self).woken() == old(self).woken() + woken_by_one(old(self).waiting_receivers()),
            final(self).receiver_taken() == old(self).receiver_taken(),
            old(self)@.len() == CAPACITY ==> r is Wait && final(self)@ == old(self)@ && *final(item)
                == *old(item) && final(self).waiting_senders() == queued(
                old(self).waiting_senders(),
                waiter,
            ) && final(self).waiting_receivers() == old(self).waiting_receivers(),
            old(self)@.len() < CAPACITY ==> r is Done && *final(item) is None && final(self)@ == old(self)@.push((*old(item))->0) && final(self).waiting_senders() == old(self).waiting_senders()
                && final(self).waiting_receivers() == (if old(self).waiting_receivers().len() == 0 {
                old(self).waiting_receivers()
            } else {
                old(self).waiting_receivers().drop_first()
            }),
    {
        if !self.fifo.is_full() {
            let v = item.take().unwrap();
            let _ = self.fifo.push(v);
            let w = self.receivers.notify_one();
            record_woken(&mut self.woken, w);
            BarrierResult::Done(())
        } else {
            BarrierResult::Wait(self.senders.arm(waiter))
        }
    }

    /// Like [`recv`](Self::recv), bounded by a deadline: once the previous
    /// wait of `waiter` has timed out, it is taken off the receivers' queue
    /// and `Err(TimedOut)` is returned.
    pub fn recv_until(&mut self, waiter: WaitEntry, wait_timed_out: bool) -> (r: Result<
        BarrierResult<T>,
        TimedOut,
    >)
        requires
            old(self).wf(),
        ensures
            final(self).wf(),
            (wait_timed_out || old(self)@.len() == 0) ==> final(self).woken() == old(self).woken(),
            (!wait_timed_out && old(self)@.len() > 0) ==> final(self).woken() == old(self).woken() + woken_by_one(old(self).waiting_senders()),
            final(self).receiver_taken() == old(self).receiver_taken(),
            wait_timed_out ==> r is Err && final(self)@ == old(self)@
                && final(self).waiting_senders() == old(self).waiting_senders()
                && final(self).waiting_receivers() == without_thread(old(self).waiting_receivers(), waiter.thread_id),
            !wait_timed_out ==> (r matches Ok(b) && (old(self)@.len() == 0 ==> b is Wait && final(self)@ == old(self)@
                && final(self).waiting_receivers() == queued(old(self).waiting_receivers(), waiter))
                && (old(self)@.len() > 0 ==> b == BarrierResult::<T>::Done(old(self)@[0])
                && final(self)@ == old(self)@.drop_first())),
    {
        if wait_timed_out {
            let _ = self.receivers.remove(waiter.thread_id);
            return Err(TimedOut);
        }
        Ok(self.recv(waiter))
    }

    /// Like [`send`](Self::send), bounded by a deadline: once the previous
    /// wait of `waiter` has timed out, it is taken off the senders' queue,
    /// the item is dropped and `Err(TimedOut)` is returned.
    pub fn send_until(&mut self, waiter: WaitEntry, item: &mut Option<T>, wait_timed_out: bool) -> (r: Result<
        BarrierResult<()>,
        TimedOut,
    >)
        requires
            old(self).wf(),
            *old(item) is Some,
        ensures
            final(self).wf(),
            (wait_timed_out || old(self)@.len() == CAPACITY) ==> final(self).woken() == old(self).woken(),
            (!wait_timed_out && old(self)@.len() < CAPACITY) ==> final(self).woken() == old(self).woken() + woken_by_one(old(self).waiting_receivers()),
            final(self).receiver_taken() == old(self).receiver_taken(),
            wait_timed_out ==> r is Err && final(self)@ == old(self)@ && *final(item) is None
                && final(self).waiting_receivers() == old(self).waiting_receivers()
                && final(self).waiting_senders() == without_thread(old(self).waiting_senders(), waiter.thread_id),
            !wait_timed_out ==> (r matches Ok(b) && (old(self)@.len() == CAPACITY ==> b is Wait
                && final(self)@ == old(self)@ && *final(item) == *old(item)
                && final(self).waiting_senders() == queued(old(self).waiting_senders(), waiter))
                && (old(self)@.len() < CAPACITY ==> b is Done && *final(item) is None
                && final(self)@ == old(self)@.push((*old(item))->0))),
    {
        if wait_timed_out {
            let _ = self.senders.remove(waiter.thread_id);
            *item = None;
            return Err(TimedOut);
        }
        Ok(self.send(waiter, item))
    }

    /// Append `item` and wake the first waiting receiver; `Err(Full(item))`
    /// if the buffer is full.
    pub fn try_send(&mut self, item: T) -> (r: Result<(), TrySendError<T>>)
        requires
            old(self).wf(),
        ensures
            final(self).wf(),
            old(self)@.len() == CAPACITY ==> final(self).woken() == old(self).woken(),
            old(self)@.len() < CAPACITY ==> final(self).woken() == old(self).woken() + woken_by_one(old(self).waiting_receivers()),
            final(self).waiting_senders() == old(self).waiting_senders(),
            final(self).receiver_taken() == old(self).receiver_taken(),
            old(self)@.len() == CAPACITY ==> r == Err::<(), TrySendError<T>>(TrySendError::Full(item))
                && final(self)@ == old(self)@ && final(self).waiting_receivers() == old(self).waiting_receivers(),
            old(self)@.len() < CAPACITY ==> r is Ok && final(self)@ == old(self)@.push(item)
                && final(self).waiting_receivers() == (if old(self).waiting_receivers().len() == 0 {
                old(self).waiting_receivers()
            } else {
                old(self).waiting_receivers().drop_first()
            }),
    {
        if self.fifo.is_full() {
            Err(TrySendError::Full(item))
        } else {
            let _ = self.fifo.push(item);
            let w = self.receivers.notify_one();
            record_woken(&mut self.woken, w);
            Ok(())
        }
    }

    pub fn capacity(&self) -> (r: usize)
        ensures
            r == CAPACITY,
    {
        CAPACITY
    }

    pub fn free(&self) -> (r: usize)
        requires
            self.wf(),
        ensures
            r == CAPACITY - self@.len(),
    {
        self.fifo.free()
    }

    pub fn used(&self) -> (r: usize)
        requires
            self.wf(),
        ensures
            r == self@.len(),
    {
        self.fifo.used()
    }

    /// Hand out the receiving end; there is at most one at a time.
    pub fn receiver(&mut self) -> (r: LockedReceiver<T, CAPACITY>)
        requires
            !old(self).receiver_taken(),
        ensures
            final(self).receiver_taken(),
            final(self)@ == old(self)@,
            final(self).wf() == old(self).wf(),
            final(self).waiting_senders() == old(self).waiting_senders(),
            final(self).waiting_receivers() == old(self).waiting_receivers(),
            final(self).woken() == old(self).woken(),
    {
        self.receiver_acquired = true;
        LockedReceiver { marker: core::marker::PhantomData }
    }

    /// Hand out a sending end; any number may exist.
    pub fn sender(&self) -> (r: LockedSender<T, CAPACITY>) {
        LockedSender { marker: core::marker::PhantomData }
    }

    /// Hand out a sending and the receiving end.
    pub fn split(&mut self) -> (r: (LockedSender<T, CAPACITY>, LockedReceiver<T, CAPACITY>))
        requires
            !old(self).receiver_taken(),
        ensures
            final(self).receiver_taken(),
            final(self)@ == old(self)@,
            final(self).wf() == old(self).wf(),
            final(self).waiting_senders() == old(self).waiting_senders(),
            final(self).waiting_receivers() == old(self).waiting_receivers(),
            final(self).woken() == old(self).woken(),
    {
        let s = self.sender();
        let r = self.receiver();
        (s, r)
    }

    /// Give the receiving end back; another may then be handed out.
    pub fn release_receiver(&mut self, receiver: LockedReceiver<T, CAPACITY>)
        ensures
            !final(self).receiver_taken(),
            final(self)@ == old(self)@,
            final(self).wf() == old(self).wf(),
            final(self).waiting_senders() == old(self).waiting_senders(),
            final(self).waiting_receivers() == old(self).waiting_receivers(),
            final(self).woken() == old(self).woken(),
    {
        self.receiver_acquired = false;
    }
}

/// Whether the receiver's hand-outs (`true`, by `receiver` or `split`) and
/// give-backs (`false`, by `release_receiver`) along `ops` are ones a channel
/// whose flag `receiver_taken()` starts at `taken` allows: a hand-out only
/// while none is out, a give-back only of one that is out.
pub open spec fn receiver_ops_allowed(taken: bool, ops: Seq<bool>) -> bool
    decreases ops.len(),
{
    ops.len() == 0 || (ops[0] != taken && receiver_ops_allowed(ops[0], ops.drop_first()))
}

/// The flag `receiver_taken()` after `ops`, starting at `taken`.
pub open spec fn receiver_taken_after(taken: bool, ops: Seq<bool>) -> bool
    decreases ops.len(),
{
    if ops.len() == 0 {
        taken
    } else {
        receiver_taken_after(ops[0], ops.drop_first())
    }
}

/// Receivers handed out minus receivers given back along `ops`.
pub open spec fn receivers_handed_out(ops: Seq<bool>) -> int
    decreases ops.len(),
{
    if ops.len() == 0 {
        0
    } else {
        (if ops[0] { 1int } else { -1int }) + receivers_handed_out(ops.drop_first())
    }
}

/// At most one receiver is out at a time: along any sequence of hand-outs
/// and give-backs that the channel allows, the receivers out (one to begin
/// with if the flag was set) number one exactly when the channel's flag is
/// set afterwards, and none otherwise.
pub proof fn lemma_at_most_one_receiver(taken: bool, ops: Seq<bool>)
    requires
        receiver_ops_allowed(taken, ops),
    ensures
        (if taken { 1int } else { 0int }) + receivers_handed_out(ops) == (if receiver_taken_after(taken, ops) {
            1int
        } else {
            0int
        }),
    decreases ops.len(),
{
    if ops.len() > 0 {
        lemma_at_most_one_receiver(ops[0], ops.drop_first());
    }
}

/// A sending end of a channel.
pub struct LockedSender<T, const CAPACITY: usize> {
    marker: core::marker::PhantomData<T>,
}

impl<T, const CAPACITY: usize> Clone for LockedSender<T, CAPACITY> {
    fn clone(&self) -> (r: Self) {
        LockedSender { marker: core::marker::PhantomData }
    }
}

impl<T, const CAPACITY: usize> LockedSender<T, CAPACITY> {
    /// One step of a blocking send on `channel`; see [`LockedChannel::send`].
    pub fn send(&self, channel: &mut LockedChannel<T, CAPACITY>, waiter: WaitEntry, item: &mut Option<T>) -> (r: BarrierResult<()>)
        requires
            old(channel).wf(),
            *old(item) is Some,
        ensures
            final(channel).wf(),
            old(channel)@.len() == CAPACITY ==> r is Wait && final(channel)@ == old(channel)@
                && *final(item) == *old(item)
                && final(channel).waiting_senders() == queued(old(channel).waiting_senders(), waiter),
            old(channel)@.len() < CAPACITY ==> r is Done && *final(item) is None && final(channel)@
                == old(channel)@.push((*old(item))->0),
    {
        channel.send(waiter, item)
    }

    /// One step of a bounded send; see [`LockedChannel::send_until`].
    pub fn send_until(&self, channel: &mut LockedChannel<T, CAPACITY>, waiter: WaitEntry, item: &mut Option<T>, wait_timed_out: bool) -> (r: Result<BarrierResult<()>, TimedOut>)
        requires
            old(channel).wf(),
            *old(item) is Some,
        ensures
            final(channel).wf(),
            wait_timed_out ==> r is Err && final(channel)@ == old(channel)@ && *final(item) is None,
            !wait_timed_out ==> (r matches Ok(b) && (old(channel)@.len() == CAPACITY ==> b is Wait
                && final(channel)@ == old(channel)@ && *final(item) == *old(item))
                && (old(channel)@.len() < CAPACITY ==> b is Done && *final(item) is None
                && final(channel)@ == old(channel)@.push((*old(item))->0))),
    {
        channel.send_until(waiter, item, wait_timed_out)
    }

    /// See [`LockedChannel::try_send`].
    pub fn try_send(&self, channel: &mut LockedChannel<T, CAPACITY>, item: T) -> (r: Result<(), TrySendError<T>>)
        requires
            old(channel).wf(),
        ensures
            final(channel).wf(),
            old(channel)@.len() == CAPACITY ==> r == Err::<(), TrySendError<T>>(TrySendError::Full(item))
                && final(channel)@ == old(channel)@,
            old(channel)@.len() < CAPACITY ==> r is Ok && final(channel)@ == old(channel)@.push(item),
    {
        channel.try_send(item)
    }

    pub fn capacity(&self) -> (r: usize)
        ensures
            r == CAPACITY,
    {
        CAPACITY
    }

    pub fn free(&self, channel: &LockedChannel<T, CAPACITY>) -> (r: usize)
        requires
            channel.wf(),
        ensures
            r == CAPACITY - channel@.len(),
    {
        channel.free()
    }

    pub fn used(&self, channel: &LockedChannel<T, CAPACITY>) -> (r: usize)
        requires
            channel.wf(),
        ensures
            r == channel@.len(),
    {
        channel.used()
    }
}

/// The receiving end of a channel.
pub struct LockedReceiver<T, const CAPACITY: usize> {
    marker: core::marker::PhantomData<T>,
}

impl<T, const CAPACITY: usize> LockedReceiver<T, CAPACITY> {
    /// One step of a blocking receive; see [`LockedChannel::recv`].
    pub fn recv(&self, channel: &mut LockedChannel<T, CAPACITY>, waiter: WaitEntry) -> (r: BarrierResult<T>)
        requires
            old(channel).wf(),
        ensures
            final(channel).wf(),
            old(channel)@.len() == 0 ==> r is Wait && final(channel)@ == old(channel)@
                && final(channel).waiting_receivers() == queued(old(channel).waiting_receivers(), waiter),
            old(channel)@.len() > 0 ==> r == BarrierResult::<T>::Done(old(channel)@[0])
                && final(channel)@ == old(channel)@.drop_first(),
    {
        channel.recv(waiter)
    }

    /// One step of a bounded receive; see [`LockedChannel::recv_until`].
    pub fn recv_until(&self, channel: &mut LockedChannel<T, CAPACITY>, waiter: WaitEntry, wait_timed_out: bool) -> (r: Result<BarrierResult<T>, TimedOut>)
        requires
            old(channel).wf(),
        ensures
            final(channel).wf(),
            wait_timed_out ==> r is Err && final(channel)@ == old(channel)@,
            !wait_timed_out ==> (r matches Ok(b) && (old(channel)@.len() == 0 ==> b is Wait
                && final(channel)@ == old(channel)@) && (old(channel)@.len() > 0
                ==> b == BarrierResult::<T>::Done(old(channel)@[0])
                && final(channel)@ == old(channel)@.drop_first())),
    {
        channel.recv_until(waiter, wait_timed_out)
    }

    /// See [`LockedChannel::try_recv`].
    pub fn try_recv(&self, channel: &mut LockedChannel<T, CAPACITY>) -> (r: Result<T, TryRecvError>)
        requires
            old(channel).wf(),
        ensures
            final(channel).wf(),
            old(channel)@.len() == 0 ==> r == Err::<T, TryRecvError>(TryRecvError::Empty)
                && final(channel)@ == old(channel)@,
            old(channel)@.len() > 0 ==> r == Ok::<T, TryRecvError>(old(channel)@[0])
                && final(channel)@ == old(channel)@.drop_first(),
    {
        channel.try_recv()
    }

    pub fn capacity(&self) -> (r: usize)
        ensures
            r == CAPACITY,
    {
        CAPACITY
    }

    pub fn free(&self, channel: &LockedChannel<T, CAPACITY>) -> (r: usize)
        requires
            channel.wf(),
        ensures
            r == CAPACITY - channel@.len(),
    {
        channel.free()
    }

    pub fn used(&self, channel: &LockedChannel<T, CAPACITY>) -> (r: usize)
        requires
            channel.wf(),
        ensures
            r == channel@.len(),
    {
        channel.used()
    }
}

} // verus!
