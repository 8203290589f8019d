//! A task that completes once the clock reaches its deadline.
use crate::task::combinators::Polled;
use crate::time::{Duration, Instant};
use vstd::prelude::*;

verus! {

pub struct Sleep {
    deadline: Instant,
}

impl Sleep {
    pub closed spec fn spec_deadline(&self) -> Instant {
        self.deadline
    }

    /// Sleep for `duration` from the clock reading `now`. A deadline past the
    /// end of the clock is an overflow, which `requires` leaves out.
    pub fn sleep(now: Instant, duration: Duration) -> (r: Sleep)
        requires
            now@ + duration@ <= u64::MAX,
        ensures
            r.spec_deadline()@ == now@ + duration@,
    {
        Sleep { deadline: Instant { tick: now.tick + duration.as_ticks() } }
    }

    /// Sleep until the clock reaches `deadline`.
    pub fn sleep_until(deadline: Instant) -> (r: Sleep)
        ensures
            r.spec_deadline() == deadline,
    {
        Sleep { deadline }
    }

    pub fn deadline(&self) -> (r: Instant)
        ensures
            r == self.spec_deadline(),
    {
        self.deadline
    }

    /// Whether the clock reading `now` has reached the deadline.
    pub fn is_elapsed(&self, now: Instant) -> (r: bool)
        ensures
            r == (now@ >= self.spec_deadline()@),
    {
        now.tick >= self.deadline.tick
    }

    /// Ready once `now` has reached the deadline; pending otherwise, in which
    /// case the executor arms a timer for the deadline.
    pub fn poll(&self, now: Instant) -> (r: Polled<()>)
        ensures
            now@ >= self.spec_deadline()@ ==> r == Polled::Ready(()),
            now@ < self.spec_deadline()@ ==> r is Pending,
    {
        if self.is_elapsed(now) {
            Polled::Ready(())
        } else {
            Polled::Pending
        }
    }
}

/// Sleeping from `now` for `duration` completes exactly at the clock readings
/// at least `duration` after `now`.
pub proof fn lemma_sleep_elapses(now: Instant, duration: Duration, later: Instant, s: Sleep)
    requires
        now@ + duration@ <= u64::MAX,
        s.spec_deadline()@ == now@ + duration@,
    ensures
        (later@ >= s.spec_deadline()@) <==> (later@ >= now@ && later@ - now@ >= duration@),
{
}

} // verus!
