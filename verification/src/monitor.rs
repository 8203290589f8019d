//! Execution-time monitor of a thread: measurement windows over the thread's
//! CPU clock, and the worst CPU time consumed in any completed window.
use crate::time::Duration;
use vstd::prelude::*;

verus! {

/// One open measurement window.
#[derive(Copy, Clone, Debug, PartialEq, Eq, Structural)]
pub struct MonitorWindow {
    /// The thread's CPU clock when the window began.
    pub start: Duration,
    /// Whether the budget event has already fired in this window.
    pub fired: bool,
}

/// A monitor operation.
#[derive(Copy, Clone, Debug, PartialEq, Eq, Structural)]
pub enum MonitorOp {
    /// Close the open window into the worst case, then open a new one.
    Restart,
    /// Close the open window into the worst case and stop measuring.
    Cancel,
    /// Clear the observed worst case.
    ResetWcet,
}

/// The CPU time consumed in a window that began at `start`, at clock `now`
/// (zero if the clock reads earlier).
pub open spec fn window_len(start: Duration, now: Duration) -> nat {
    if now@ < start@ {
        0
    } else {
        (now@ - start@) as nat
    }
}

/// The worst case after closing `window` at `now`.
pub open spec fn closed_wcet(wcet: Duration, window: Option<MonitorWindow>, now: Duration) -> nat {
    match window {
        None => wcet@,
        Some(w) => if wcet@ >= window_len(w.start, now) {
            wcet@
        } else {
            window_len(w.start, now)
        },
    }
}

/// Measurement state: the worst CPU consumed in any completed window, and the
/// open window.
#[derive(Copy, Clone, Debug, PartialEq, Eq, Structural)]
pub struct MonitorState {
    pub wcet: Duration,
    pub window: Option<MonitorWindow>,
}

impl MonitorState {
    /// No window open and no worst case observed.
    pub fn new() -> (r: MonitorState)
        ensures
            r.wcet@ == 0,
            r.window is None,
    {
        MonitorState { wcet: Duration::zero(), window: None }
    }

    /// Apply `op` at the thread's CPU clock reading `now`.
    pub fn apply(&mut self, op: MonitorOp, now: Duration)
        ensures
            op is Restart ==> final(self).wcet@ == closed_wcet(old(self).wcet, old(self).window, now)
                && final(self).window == Some(MonitorWindow { start: now, fired: false }),
            op is Cancel ==> final(self).wcet@ == closed_wcet(old(self).wcet, old(self).window, now)
                && final(self).window is None,
            op is ResetWcet ==> final(self).wcet@ == 0 && final(self).window == old(self).window,
    {
        match op {
            MonitorOp::Restart => {
                self.close_window(now);
                self.window = Some(MonitorWindow { start: now, fired: false });
            },
            MonitorOp::Cancel => {
                self.close_window(now);
                self.window = None;
            },
            MonitorOp::ResetWcet => {
                self.wcet = Duration::zero();
            },
        }
    }

    /// Fold the open window, if any, into the worst case.
    fn close_window(&mut self, now: Duration)
        ensures
            final(self).wcet@ == closed_wcet(old(self).wcet, old(self).window, now),
            final(self).window == old(self).window,
    {
        if let Some(w) = self.window {
            let len = now.saturating_sub(w.start);
            if len.as_ticks() > self.wcet.as_ticks() {
                self.wcet = len;
            }
        }
    }
}

/// A thread's CPU clock: the time accumulated so far, plus the slice in
/// progress when the thread is the one running now. Saturates.
pub fn effective_execution_time(accumulated: Duration, in_progress: Option<Duration>) -> (r: Duration)
    ensures
        in_progress is None ==> r == accumulated,
        in_progress matches Some(s) ==> r@ == (if accumulated@ + s@ > u64::MAX {
            u64::MAX as nat
        } else {
            accumulated@ + s@
        }),
{
    match in_progress {
        Some(slice) => accumulated.saturating_add(slice),
        None => accumulated,
    }
}

/// A window lasts from its start to the clock reading: its start plus its
/// length is the reading, and a reading before the start gives an empty
/// window.
pub proof fn lemma_window_spans_start_to_now(start: Duration, now: Duration)
    ensures
        start@ <= now@ ==> start@ + window_len(start, now) == now@,
        now@ < start@ ==> window_len(start, now) == 0,
{
}

/// Closing a window makes the worst case the larger of the old worst case
/// and that window's length: it is one of the two, and at least both.
pub proof fn lemma_wcet_is_the_larger(wcet: Duration, w: MonitorWindow, now: Duration)
    ensures
        closed_wcet(wcet, Some(w), now) == wcet@ || closed_wcet(wcet, Some(w), now) == window_len(w.start, now),
        closed_wcet(wcet, Some(w), now) >= wcet@,
        closed_wcet(wcet, Some(w), now) >= window_len(w.start, now),
{
}

/// The observed worst case only grows, except by an explicit reset; and
/// closing a window leaves it at least as large as that window.
pub proof fn lemma_wcet_monotone(wcet: Duration, window: Option<MonitorWindow>, now: Duration)
    ensures
        closed_wcet(wcet, window, now) >= wcet@,
        window matches Some(w) ==> closed_wcet(wcet, window, now) >= window_len(w.start, now),
{
}

} // verus!
