//! A task that waits for events sent to its executor.
use crate::task::combinators::Polled;
use crate::thread::Events;
use vstd::prelude::*;

verus! {

pub struct WaitForEvents {
    /// The events waited for.
    pub events: Events,
    /// Whether any one of them completes the wait, or only all of them.
    pub wait_any: bool,
}

/// The events one poll consumes out of `pending`: with `wait_any`, those of
/// `events` that are pending; otherwise all of `events` if every one is
/// pending, and none if not.
pub open spec fn consumed_events(events: Events, wait_any: bool, pending: Events) -> Events {
    if wait_any {
        pending & events
    } else if (pending & events) == events {
        pending & events
    } else {
        0
    }
}

impl WaitForEvents {
    /// Wait for any of `events`.
    pub fn new(events: Events) -> (r: WaitForEvents)
        ensures
            r.events == events,
            r.wait_any,
    {
        WaitForEvents { events, wait_any: true }
    }

    /// Wait for all of `events`.
    pub fn all(events: Events) -> (r: WaitForEvents)
        ensures
            r.events == events,
            !r.wait_any,
    {
        WaitForEvents { events, wait_any: false }
    }

    /// Wait for any of `events`.
    pub fn any(events: Events) -> (r: WaitForEvents)
        ensures
            r.events == events,
            r.wait_any,
    {
        Self::new(events)
    }

    /// Consume what this wait takes out of the executor's `pending` events,
    /// and complete with it if it is not empty.
    pub fn poll(&self, pending: &mut Events) -> (r: Polled<Events>)
        ensures
            ({
                let c = consumed_events(self.events, self.wait_any, *old(pending));
                &&& *final(pending) == *old(pending) & !c
                &&& c != 0 ==> r == Polled::Ready(c)
                &&& c == 0 ==> r is Pending
            }),
    {
        let consumed: Events = if self.wait_any {
            *pending & self.events
        } else if (*pending & self.events) == self.events {
            *pending & self.events
        } else {
            0
        };
        *pending = *pending & !consumed;
        if consumed != 0 {
            Polled::Ready(consumed)
        } else {
            Polled::Pending
        }
    }
}

/// What one poll of a wait for any of `events` takes, bit by bit: it
/// consumes (and completes with) exactly the awaited events that are
/// pending, all of them at once, and leaves pending exactly the events that
/// were pending and not awaited.
pub proof fn lemma_wait_any_consumes_every_pending_awaited_event(events: Events, pending: Events, i: u32)
    requires
        i < 32,
    ensures
        (consumed_events(events, true, pending) & (1u32 << i)) != 0 <==> ((pending & (1u32 << i)) != 0
            && (events & (1u32 << i)) != 0),
        ((pending & !consumed_events(events, true, pending)) & (1u32 << i)) != 0 <==> ((pending & (1u32 << i))
            != 0 && (events & (1u32 << i)) == 0),
{
    let c = consumed_events(events, true, pending);
    assert(c == pending & events);
    assert((c & (1u32 << i)) != 0 <==> ((pending & (1u32 << i)) != 0 && (events & (1u32 << i)) != 0))
        by (bit_vector)
        requires
            c == pending & events,
            i < 32,
    ;
    assert(((pending & !c) & (1u32 << i)) != 0 <==> ((pending & (1u32 << i)) != 0 && (events & (1u32 << i))
        == 0)) by (bit_vector)
        requires
            c == pending & events,
            i < 32,
    ;
}

/// A wait for all of its events consumes nothing, and leaves every event
/// pending, while one awaited event is missing.
pub proof fn lemma_wait_all_waits_for_every_event(events: Events, pending: Events, i: u32)
    requires
        i < 32,
        (events & (1u32 << i)) != 0,
        (pending & (1u32 << i)) == 0,
    ensures
        consumed_events(events, false, pending) == 0,
        (pending & !consumed_events(events, false, pending)) == pending,
{
    assert((pending & events) != events) by (bit_vector)
        requires
            i < 32,
            (events & (1u32 << i)) != 0,
            (pending & (1u32 << i)) == 0,
    ;
    assert((pending & !0u32) == pending) by (bit_vector);
}

/// A wait for all of its events completes with exactly those events, and a
/// consumed event is no longer pending.
pub proof fn lemma_wait_all_consumes_exactly(events: Events, pending: Events)
    requires
        (pending & events) == events,
        events != 0,
    ensures
        consumed_events(events, false, pending) == events,
        (pending & !events) & events == 0,
{
    assert((pending & !events) & events == 0) by (bit_vector);
}

} // verus!
