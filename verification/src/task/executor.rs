//! The task queues of an interrupt executor: tasks ready to be polled, tasks
//! sleeping until a deadline (ordered by deadline), tasks waiting for the
//! interrupt, and tasks resumed from elsewhere and not yet moved to the ready
//! queue.
//!
//! Polling a task is outside work: the executor hands out the next ready task
//! with `next_ready`, and the caller polls it.
use crate::time::Instant;
use vstd::prelude::*;

verus! {

/// Why the executor is polled.
#[derive(Copy, Clone, Debug, PartialEq, Eq, Structural)]
pub enum PollKind {
    /// The executor was just attached: resume interrupt waiters and due
    /// sleepers.
    OnAttach,
    /// The interrupt occurred: resume interrupt waiters.
    OnInterrupt,
    /// A sleep deadline passed: resume due sleepers.
    OnWakeup,
    /// A task was resumed: only the resumed tasks become ready.
    OnResume,
}

/// How to get the executor polled after a task is resumed.
#[derive(Copy, Clone, Debug, PartialEq, Eq, Structural)]
pub enum WakeAction {
    /// In an interrupt handler: poll when the outermost handler returns.
    SetPollPending,
    /// In a thread: poll now.
    PollNow,
}

/// A sleeping task and its deadline.
#[derive(Copy, Clone, Debug, PartialEq, Eq, Structural)]
pub struct SleepEntry {
    pub task: u32,
    pub wakeup: Instant,
}

/// The sleepers are ordered by deadline, earliest first.
pub open spec fn wakeup_sorted(s: Seq<SleepEntry>) -> bool {
    forall|i: int, j: int| 0 <= i < j < s.len() ==> s[i].wakeup@ <= s[j].wakeup@
}

/// The number of leading sleepers whose deadline is at most `t`.
pub open spec fn due_count(s: Seq<SleepEntry>, t: Instant) -> nat
    decreases s.len(),
{
    if s.len() == 0 {
        0
    } else if s[0].wakeup@ <= t@ {
        1 + due_count(s.drop_first(), t)
    } else {
        0
    }
}

/// The tasks of a run of sleepers.
pub open spec fn sleeper_tasks(s: Seq<SleepEntry>) -> Seq<u32> {
    s.map_values(|e: SleepEntry| e.task)
}

/// The sleep queue after a task goes to sleep until `deadline`: after every
/// sleeper due no later than it.
pub open spec fn slept(s: Seq<SleepEntry>, e: SleepEntry) -> Seq<SleepEntry> {
    s.insert(due_count(s, e.wakeup) as int, e)
}

/// In a deadline-ordered sleep queue, the sleepers resumed at `t` are exactly
/// those due by `t`: every one of them is due, and every one left is not.
pub proof fn lemma_due_count(s: Seq<SleepEntry>, t: Instant)
    requires
        wakeup_sorted(s),
    ensures
        due_count(s, t) <= s.len(),
        forall|i: int| 0 <= i < due_count(s, t) ==> (#[trigger] s[i]).wakeup@ <= t@,
        forall|i: int| due_count(s, t) <= i < s.len() ==> (#[trigger] s[i]).wakeup@ > t@,
    decreases s.len(),
{
    if s.len() > 0 {
        let r = s.drop_first();
        assert(wakeup_sorted(r));
        lemma_due_count(r, t);
        if s[0].wakeup@ <= t@ {
            assert forall|i: int| 0 <= i < due_count(s, t) implies (#[trigger] s[i]).wakeup@ <= t@ by {
                if i > 0 {
                    assert(s[i] == r[i - 1]);
                }
            }
            assert forall|i: int| due_count(s, t) <= i < s.len() implies (#[trigger] s[i]).wakeup@ > t@ by {
                assert(s[i] == r[i - 1]);
            }
        } else {
            assert forall|i: int| 0 <= i < s.len() implies (#[trigger] s[i]).wakeup@ > t@ by {
                assert(s[0].wakeup@ <= s[i].wakeup@);
            }
        }
    }
}

/// Putting a task to sleep keeps the sleep queue ordered by deadline.
pub proof fn lemma_slept_sorted(s: Seq<SleepEntry>, e: SleepEntry)
    requires
        wakeup_sorted(s),
    ensures
        wakeup_sorted(slept(s, e)),
        slept(s, e).len() == s.len() + 1,
{
    lemma_due_count(s, e.wakeup);
    let k = due_count(s, e.wakeup) as int;
    let r = slept(s, e);
    assert forall|i: int, j: int| 0 <= i < j < r.len() implies r[i].wakeup@ <= r[j].wakeup@ by {
        if i < k {
            assert(r[i] == s[i]);
            if j < k {
                assert(r[j] == s[j]);
            } else if j > k {
                assert(r[j] == s[j - 1]);
            }
        } else if i == k {
            assert(r[j] == s[j - 1]);
        } else {
            assert(r[i] == s[i - 1]);
            assert(r[j] == s[j - 1]);
        }
    }
}

/// Append all of `src` to `dst`, in order, leaving `src` empty.
fn move_all(dst: &mut Vec<u32>, src: &mut Vec<u32>)
    ensures
        final(dst)@ == old(dst)@ + old(src)@,
        final(src)@.len() == 0,
{
    let mut i: usize = 0;
    let len = src.len();
    while i < len
        invariant
            len == src@.len(),
            src@ == old(src)@,
            i <= len,
            dst@ == old(dst)@ + src@.subrange(0, i as int),
        decreases len - i,
    {
        let t = src[i];
        dst.push(t);
        i = i + 1;
        assert(src@.subrange(0, i as int) =~= src@.subrange(0, i - 1).push(t));
    }
    assert(src@.subrange(0, len as int) =~= src@);
    *src = Vec::new();
}

/// Insert `e` into the deadline-ordered `sleep`, after the sleepers due no
/// later.
fn insert_sleeper(sleep: &mut Vec<SleepEntry>, e: SleepEntry)
    requires
        wakeup_sorted(old(sleep)@),
    ensures
        wakeup_sorted(final(sleep)@),
        final(sleep)@ == slept(old(sleep)@, e),
{
    proof {
        lemma_due_count(sleep@, e.wakeup);
        lemma_slept_sorted(sleep@, e);
    }
    let mut i: usize = 0;
    let len = sleep.len();
    while i < len && sleep[i].wakeup.tick <= e.wakeup.tick
        invariant
            len == sleep@.len(),
            sleep@ == old(sleep)@,
            wakeup_sorted(sleep@),
            i <= due_count(sleep@, e.wakeup),
            due_count(sleep@, e.wakeup) <= len,
            forall|j: int| due_count(sleep@, e.wakeup) <= j < len ==> (#[trigger] sleep@[j]).wakeup@ > e.wakeup@,
        decreases len - i,
    {
        i = i + 1;
    }
    sleep.insert(i, e);
}

/// Move the sleepers of `sleep` due at `now` to the end of `ready`, earliest
/// first.
fn move_due(ready: &mut Vec<u32>, sleep: &mut Vec<SleepEntry>, now: Instant)
    requires
        wakeup_sorted(old(sleep)@),
    ensures
        wakeup_sorted(final(sleep)@),
        ({
            let k = due_count(old(sleep)@, now) as int;
            &&& final(ready)@ == old(ready)@ + sleeper_tasks(old(sleep)@.subrange(0, k))
            &&& final(sleep)@ == old(sleep)@.subrange(k, old(sleep)@.len() as int)
        }),
{
    let ghost s0 = sleep@;
    proof {
        lemma_due_count(s0, now);
    }
    let ghost k = due_count(s0, now) as int;
    let mut i: usize = 0;
    let len = sleep.len();
    while i < len && sleep[i].wakeup.tick <= now.tick
        invariant
            len == sleep@.len(),
            sleep@ == s0,
            i <= k,
            k <= len,
            forall|j: int| k <= j < len ==> (#[trigger] s0[j]).wakeup@ > now@,
            ready@ == old(ready)@ + sleeper_tasks(s0.subrange(0, i as int)),
        decreases len - i,
    {
        let t = sleep[i].task;
        ready.push(t);
        i = i + 1;
        assert(sleeper_tasks(s0.subrange(0, i as int)) =~= sleeper_tasks(s0.subrange(0, i - 1)).push(t));
    }
    assert(i == k);
    let mut rest: Vec<SleepEntry> = Vec::new();
    let mut j: usize = i;
    while j < len
        invariant
            len == sleep@.len(),
            sleep@ == s0,
            i <= j <= len,
            rest@ == s0.subrange(i as int, j as int),
        decreases len - j,
    {
        rest.push(sleep[j]);
        j = j + 1;
        assert(s0.subrange(i as int, j as int) =~= s0.subrange(i as int, j - 1).push(s0[j - 1]));
    }
    *sleep = rest;
}

/// Take the first task of `ready`.
fn pop_ready(ready: &mut Vec<u32>) -> (r: Option<u32>)
    ensures
        old(ready)@.len() == 0 ==> r is None && final(ready)@ == old(ready)@,
        old(ready)@.len() > 0 ==> r == Some(old(ready)@[0]) && final(ready)@ == old(ready)@.drop_first(),
{
    if ready.len() == 0 {
        None
    } else {
        let t = ready.remove(0);
        assert(ready@ =~= old(ready)@.drop_first());
        Some(t)
    }
}

pub struct InterruptExecutor {
    ready: Vec<u32>,
    sleep: Vec<SleepEntry>,
    wfi: Vec<u32>,
    pending: Vec<u32>,
}

impl InterruptExecutor {
    pub closed spec fn wf(&self) -> bool {
        wakeup_sorted(self.sleep@)
    }

    /// The tasks ready to be polled, in polling order.
    pub closed spec fn ready_tasks(&self) -> Seq<u32> {
        self.ready@
    }

    /// The sleeping tasks, earliest deadline first.
    pub closed spec fn sleepers(&self) -> Seq<SleepEntry> {
        self.sleep@
    }

    /// The tasks waiting for the interrupt.
    pub closed spec fn interrupt_waiters(&self) -> Seq<u32> {
        self.wfi@
    }

    /// The tasks resumed and not yet moved to the ready queue.
    pub closed spec fn pending_tasks(&self) -> Seq<u32> {
        self.pending@
    }

    pub fn new() -> (r: InterruptExecutor)
        ensures
            r.wf(),
            r.ready_tasks().len() == 0,
            r.sleepers().len() == 0,
            r.interrupt_waiters().len() == 0,
            r.pending_tasks().len() == 0,
    {
        InterruptExecutor { ready: Vec::new(), sleep: Vec::new(), wfi: Vec::new(), pending: Vec::new() }
    }

    /// Queue a newly spawned task to be polled.
    pub fn spawn(&mut self, task: u32)
        ensures
            final(self).ready_tasks() == old(self).ready_tasks().push(task),
            final(self).sleepers() == old(self).sleepers(),
            final(self).interrupt_waiters() == old(self).interrupt_waiters(),
            final(self).pending_tasks() == old(self).pending_tasks(),
            final(self).wf() == old(self).wf(),
    {
        self.ready.push(task);
    }

    /// Resume `task` from anywhere: it joins the pending queue, and the
    /// executor is to be polled at the end of the interrupt (from an
    /// interrupt handler) or at once (from a thread).
    pub fn resume_task(&mut self, task: u32, in_interrupt: bool) -> (r: WakeAction)
        ensures
            final(self).pending_tasks() == old(self).pending_tasks().push(task),
            final(self).ready_tasks() == old(self).ready_tasks(),
            final(self).sleepers() == old(self).sleepers(),
            final(self).interrupt_waiters() == old(self).interrupt_waiters(),
            final(self).wf() == old(self).wf(),
            r == (if in_interrupt { WakeAction::SetPollPending } else { WakeAction::PollNow }),
    {
        self.pending.push(task);
        if in_interrupt {
            WakeAction::SetPollPending
        } else {
            WakeAction::PollNow
        }
    }

    /// Put `task` to sleep until `deadline`, after the sleepers due no later.
    pub fn task_sleep_until(&mut self, task: u32, deadline: Instant)
        requires
            old(self).wf(),
        ensures
            final(self).wf(),
            final(self).sleepers() == slept(old(self).sleepers(), SleepEntry { task, wakeup: deadline }),
            final(self).ready_tasks() == old(self).ready_tasks(),
            final(self).interrupt_waiters() == old(self).interrupt_waiters(),
            final(self).pending_tasks() == old(self).pending_tasks(),
    {
        insert_sleeper(&mut self.sleep, SleepEntry { task, wakeup: deadline });
    }

    /// Queue `task` until the interrupt occurs.
    pub fn task_wait_for_interrupt(&mut self, task: u32)
        ensures
            final(self).interrupt_waiters() == old(self).interrupt_waiters().push(task),
            final(self).ready_tasks() == old(self).ready_tasks(),
            final(self).sleepers() == old(self).sleepers(),
            final(self).pending_tasks() == old(self).pending_tasks(),
            final(self).wf() == old(self).wf(),
    {
        self.wfi.push(task);
    }

    /// Move every pending task to the ready queue, in order.
    pub fn resume_pending_tasks(&mut self)
        ensures
            final(self).ready_tasks() == old(self).ready_tasks() + old(self).pending_tasks(),
            final(self).pending_tasks().len() == 0,
            final(self).sleepers() == old(self).sleepers(),
            final(self).interrupt_waiters() == old(self).interrupt_waiters(),
            final(self).wf() == old(self).wf(),
    {
        move_all(&mut self.ready, &mut self.pending);
    }

    /// Move every interrupt waiter to the ready queue, in order.
    pub fn resume_wfi_tasks(&mut self)
        ensures
            final(self).ready_tasks() == old(self).ready_tasks() + old(self).interrupt_waiters(),
            final(self).interrupt_waiters().len() == 0,
            final(self).sleepers() == old(self).sleepers(),
            final(self).pending_tasks() == old(self).pending_tasks(),
            final(self).wf() == old(self).wf(),
    {
        move_all(&mut self.ready, &mut self.wfi);
    }

    /// Move the sleepers due at `now` to the ready queue, earliest first.
    pub fn resume_sleeping_tasks(&mut self, now: Instant)
        requires
            old(self).wf(),
        ensures
            final(self).wf(),
            ({
                let k = due_count(old(self).sleepers(), now) as int;
                &&& final(self).ready_tasks() == old(self).ready_tasks() + sleeper_tasks(
                    old(self).sleepers().subrange(0, k),
                )
                &&& final(self).sleepers() == old(self).sleepers().subrange(k, old(self).sleepers().len() as int)
            }),
            final(self).interrupt_waiters() == old(self).interrupt_waiters(),
            final(self).pending_tasks() == old(self).pending_tasks(),
    {
        move_due(&mut self.ready, &mut self.sleep, now);
    }

    /// Start a poll round of the given kind: resume interrupt waiters and/or
    /// due sleepers as the kind says, then the pending tasks. The caller then
    /// polls the tasks handed out by `next_ready`.
    pub fn poll(&mut self, kind: PollKind, now: Instant)
        requires
            old(self).wf(),
        ensures
            final(self).wf(),
            ({
                let wfi = if kind is OnAttach || kind is OnInterrupt {
                    old(self).interrupt_waiters()
                } else {
                    Seq::<u32>::empty()
                };
                let k = if kind is OnAttach || kind is OnWakeup {
                    due_count(old(self).sleepers(), now) as int
                } else {
                    0
                };
                &&& final(self).ready_tasks() == old(self).ready_tasks() + wfi + sleeper_tasks(
                    old(self).sleepers().subrange(0, k),
                ) + old(self).pending_tasks()
                &&& final(self).sleepers() == old(self).sleepers().subrange(k, old(self).sleepers().len() as int)
                &&& final(self).interrupt_waiters() == (if kind is OnAttach || kind is OnInterrupt {
                    Seq::<u32>::empty()
                } else {
                    old(self).interrupt_waiters()
                })
                &&& final(self).pending_tasks().len() == 0
            }),
    {
        match kind {
            PollKind::OnAttach => {
                self.resume_wfi_tasks();
                self.resume_sleeping_tasks(now);
            },
            PollKind::OnInterrupt => {
                self.resume_wfi_tasks();
            },
            PollKind::OnWakeup => {
                self.resume_sleeping_tasks(now);
            },
            PollKind::OnResume => {},
        }
        proof {
            assert(old(self).sleepers().subrange(0, 0) =~= Seq::<SleepEntry>::empty());
            assert(sleeper_tasks(Seq::<SleepEntry>::empty()) =~= Seq::<u32>::empty());
            assert(old(self).sleepers().subrange(0, old(self).sleepers().len() as int) =~= old(self).sleepers());
        }
        self.resume_pending_tasks();
        proof {
            assert(old(self).ready_tasks() + Seq::<u32>::empty() =~= old(self).ready_tasks());
        }
    }

    /// Hand out the next ready task to poll.
    pub fn next_ready(&mut self) -> (r: Option<u32>)
        ensures
            old(self).ready_tasks().len() == 0 ==> r is None && final(self).ready_tasks() == old(self).ready_tasks(),
            old(self).ready_tasks().len() > 0 ==> r == Some(old(self).ready_tasks()[0])
                && final(self).ready_tasks() == old(self).ready_tasks().drop_first(),
            final(self).sleepers() == old(self).sleepers(),
            final(self).interrupt_waiters() == old(self).interrupt_waiters(),
            final(self).pending_tasks() == old(self).pending_tasks(),
            final(self).wf() == old(self).wf(),
    {
        pop_ready(&mut self.ready)
    }

    /// The deadline at which the executor must be polled again: the earliest
    /// sleeper's.
    pub fn next_wakeup(&self) -> (r: Option<Instant>)
        ensures
            self.sleepers().len() == 0 ==> r is None,
            self.sleepers().len() > 0 ==> r == Some(self.sleepers()[0].wakeup),
    {
        if self.sleep.len() == 0 {
            None
        } else {
            Some(self.sleep[0].wakeup)
        }
    }
}

/// The task queues of an executor run by a thread: ready, sleeping (ordered
/// by deadline) and resumed-but-not-yet-ready tasks.
pub struct ThreadExecutor {
    ready: Vec<u32>,
    sleep: Vec<SleepEntry>,
    pending: Vec<u32>,
}

impl ThreadExecutor {
    pub closed spec fn wf(&self) -> bool {
        wakeup_sorted(self.sleep@)
    }

    pub closed spec fn ready_tasks(&self) -> Seq<u32> {
        self.ready@
    }

    pub closed spec fn sleepers(&self) -> Seq<SleepEntry> {
        self.sleep@
    }

    pub closed spec fn pending_tasks(&self) -> Seq<u32> {
        self.pending@
    }

    pub fn new() -> (r: ThreadExecutor)
        ensures
            r.wf(),
            r.ready_tasks().len() == 0,
            r.sleepers().len() == 0,
            r.pending_tasks().len() == 0,
    {
        ThreadExecutor { ready: Vec::new(), sleep: Vec::new(), pending: Vec::new() }
    }

    /// Queue a newly spawned task to be polled.
    pub fn spawn(&mut self, task: u32)
        ensures
            final(self).ready_tasks() == old(self).ready_tasks().push(task),
            final(self).sleepers() == old(self).sleepers(),
            final(self).pending_tasks() == old(self).pending_tasks(),
            final(self).wf() == old(self).wf(),
    {
        self.ready.push(task);
    }

    /// Resume `task` from anywhere: it joins the pending queue, and the
    /// caller sends the executor's thread its wakeup event.
    pub fn resume_task(&mut self, task: u32)
        ensures
            final(self).pending_tasks() == old(self).pending_tasks().push(task),
            final(self).ready_tasks() == old(self).ready_tasks(),
            final(self).sleepers() == old(self).sleepers(),
            final(self).wf() == old(self).wf(),
    {
        self.pending.push(task);
    }

    /// Put `task` to sleep until `deadline`, after the sleepers due no later.
    pub fn task_sleep_until(&mut self, task: u32, deadline: Instant)
        requires
            old(self).wf(),
        ensures
            final(self).wf(),
            final(self).sleepers() == slept(old(self).sleepers(), SleepEntry { task, wakeup: deadline }),
            final(self).ready_tasks() == old(self).ready_tasks(),
            final(self).pending_tasks() == old(self).pending_tasks(),
    {
        insert_sleeper(&mut self.sleep, SleepEntry { task, wakeup: deadline });
    }

    /// Move every pending task to the ready queue, in order. Returns whether
    /// the thread is to be woken: some task became ready and `notify_executor`
    /// asks for it.
    pub fn resume_pending_tasks(&mut self, notify_executor: bool) -> (r: bool)
        ensures
            final(self).ready_tasks() == old(self).ready_tasks() + old(self).pending_tasks(),
            final(self).pending_tasks().len() == 0,
            final(self).sleepers() == old(self).sleepers(),
            final(self).wf() == old(self).wf(),
            r == (old(self).pending_tasks().len() > 0 && notify_executor),
    {
        let became_ready = self.pending.len() > 0;
        move_all(&mut self.ready, &mut self.pending);
        became_ready && notify_executor
    }

    /// Move the sleepers due at `now` to the ready queue, earliest first.
    pub fn resume_sleeping_tasks(&mut self, now: Instant)
        requires
            old(self).wf(),
        ensures
            final(self).wf(),
            ({
                let k = due_count(old(self).sleepers(), now) as int;
                &&& final(self).ready_tasks() == old(self).ready_tasks() + sleeper_tasks(
                    old(self).sleepers().subrange(0, k),
                )
                &&& final(self).sleepers() == old(self).sleepers().subrange(k, old(self).sleepers().len() as int)
            }),
            final(self).pending_tasks() == old(self).pending_tasks(),
    {
        move_due(&mut self.ready, &mut self.sleep, now);
    }

    /// Start a round of `block_on`: resume the due sleepers, then the pending
    /// tasks. The caller then polls the tasks handed out by `next_ready`
    /// until the blocked-on task completes, and otherwise waits for the
    /// wakeup event until `next_wakeup`.
    pub fn block_on_round(&mut self, now: Instant)
        requires
            old(self).wf(),
        ensures
            final(self).wf(),
            ({
                let k = due_count(old(self).sleepers(), now) as int;
                &&& final(self).ready_tasks() == old(self).ready_tasks() + sleeper_tasks(
                    old(self).sleepers().subrange(0, k),
                ) + old(self).pending_tasks()
                &&& final(self).sleepers() == old(self).sleepers().subrange(k, old(self).sleepers().len() as int)
                &&& final(self).pending_tasks().len() == 0
            }),
    {
        self.resume_sleeping_tasks(now);
        let _ = self.resume_pending_tasks(false);
    }

    /// Hand out the next ready task to poll.
    pub fn next_ready(&mut self) -> (r: Option<u32>)
        ensures
            old(self).ready_tasks().len() == 0 ==> r is None && final(self).ready_tasks() == old(self).ready_tasks(),
            old(self).ready_tasks().len() > 0 ==> r == Some(old(self).ready_tasks()[0])
                && final(self).ready_tasks() == old(self).ready_tasks().drop_first(),
            final(self).sleepers() == old(self).sleepers(),
            final(self).pending_tasks() == old(self).pending_tasks(),
            final(self).wf() == old(self).wf(),
    {
        pop_ready(&mut self.ready)
    }

    /// The earliest sleeper's deadline, until which the thread may wait.
    pub fn next_wakeup(&self) -> (r: Option<Instant>)
        ensures
            self.sleepers().len() == 0 ==> r is None,
            self.sleepers().len() > 0 ==> r == Some(self.sleepers()[0].wakeup),
    {
        if self.sleep.len() == 0 {
            None
        } else {
            Some(self.sleep[0].wakeup)
        }
    }
}

/// What a poll of an executor leaves to do: the deadline at which to poll it
/// again, if a task sleeps.
#[derive(Copy, Clone, Debug, PartialEq, Eq, Structural)]
pub struct PollResult {
    pub deadline_opt: Option<Instant>,
}

/// An executor that cannot block on a task.
#[derive(Copy, Clone, Debug, PartialEq, Eq, Structural)]
pub enum BlockOnError {
    NotSupported,
}

/// `s` with `t` appended, unless `t` is already in it.
pub open spec fn enqueue_unique(s: Seq<u32>, t: u32) -> Seq<u32> {
    if s.contains(t) {
        s
    } else {
        s.push(t)
    }
}

/// `s` after enqueuing each task of `ts` in order, skipping those already
/// queued.
pub open spec fn enqueue_all(s: Seq<u32>, ts: Seq<u32>) -> Seq<u32>
    decreases ts.len(),
{
    if ts.len() == 0 {
        s
    } else {
        enqueue_unique(enqueue_all(s, ts.drop_last()), ts.last())
    }
}

/// Enqueuing without duplicates keeps a queue free of duplicates.
pub proof fn lemma_enqueue_all_unique(s: Seq<u32>, ts: Seq<u32>)
    requires
        s.no_duplicates(),
    ensures
        enqueue_all(s, ts).no_duplicates(),
        forall|t: u32| #[trigger] enqueue_all(s, ts).contains(t) <==> (s.contains(t) || ts.contains(t)),
    decreases ts.len(),
{
    if ts.len() > 0 {
        let prev = enqueue_all(s, ts.drop_last());
        lemma_enqueue_all_unique(s, ts.drop_last());
        let t = ts.last();
        assert forall|u: u32| #[trigger] enqueue_all(s, ts).contains(u) <==> (s.contains(u) || ts.contains(u)) by {
            if ts.contains(u) && !ts.drop_last().contains(u) {
                assert(u == t) by {
                    let i = choose|i: int| 0 <= i < ts.len() && ts[i] == u;
                    if i < ts.len() - 1 {
                        assert(ts.drop_last()[i] == u);
                    }
                }
            }
            if ts.drop_last().contains(u) {
                let i = choose|i: int| 0 <= i < ts.drop_last().len() && ts.drop_last()[i] == u;
                assert(ts[i] == u);
            }
            if !prev.contains(t) {
                assert(prev.push(t)[prev.len() as int] == t);
                if prev.push(t).contains(u) && u != t {
                    let i = choose|i: int| 0 <= i < prev.push(t).len() && prev.push(t)[i] == u;
                    assert(prev[i] == u);
                }
                if prev.contains(u) {
                    let i = choose|i: int| 0 <= i < prev.len() && prev[i] == u;
                    assert(prev.push(t)[i] == u);
                }
            }
        }
        if !prev.contains(t) {
            assert(prev.push(t).no_duplicates()) by {
                assert forall|i: int, j: int| 0 <= i < j < prev.push(t).len() implies prev.push(t)[i] != prev.push(t)[j] by {
                    if j == prev.len() {
                        assert(prev[i] == prev.push(t)[i]);
                    }
                }
            }
        }
    }
}

/// Append `t` to `q` unless it is already there.
fn push_unique(q: &mut Vec<u32>, t: u32)
    ensures
        final(q)@ == enqueue_unique(old(q)@, t),
{
    let mut i: usize = 0;
    let len = q.len();
    while i < len
        invariant
            len == q@.len(),
            q@ == old(q)@,
            i <= len,
            forall|j: int| 0 <= j < i ==> q@[j] != t,
        decreases len - i,
    {
        if q[i] == t {
            return;
        }
        i = i + 1;
    }
    q.push(t);
}

/// Enqueue each task of `ts` on `q` in order, skipping those already queued.
fn push_all_unique(q: &mut Vec<u32>, ts: &Vec<u32>)
    ensures
        final(q)@ == enqueue_all(old(q)@, ts@),
{
    let mut i: usize = 0;
    let len = ts.len();
    while i < len
        invariant
            len == ts@.len(),
            i <= len,
            q@ == enqueue_all(old(q)@, ts@.subrange(0, i as int)),
        decreases len - i,
    {
        let t = ts[i];
        push_unique(q, t);
        i = i + 1;
        assert(ts@.subrange(0, i as int).drop_last() =~= ts@.subrange(0, i - 1));
    }
    assert(ts@.subrange(0, len as int) =~= ts@);
}

/// The executor core shared by the event-handler executor: tasks ready to be
/// polled (each at most once), sleeping tasks ordered by deadline, and tasks
/// resumed from elsewhere (each at most once).
pub struct RawExecutor {
    ready: Vec<u32>,
    sleep: Vec<SleepEntry>,
    pending: Vec<u32>,
}

impl RawExecutor {
    pub closed spec fn wf(&self) -> bool {
        &&& wakeup_sorted(self.sleep@)
        &&& self.ready@.no_duplicates()
        &&& self.pending@.no_duplicates()
    }

    pub closed spec fn ready_tasks(&self) -> Seq<u32> {
        self.ready@
    }

    pub closed spec fn sleepers(&self) -> Seq<SleepEntry> {
        self.sleep@
    }

    pub closed spec fn pending_tasks(&self) -> Seq<u32> {
        self.pending@
    }

    pub fn new() -> (r: RawExecutor)
        ensures
            r.wf(),
            r.ready_tasks().len() == 0,
            r.sleepers().len() == 0,
            r.pending_tasks().len() == 0,
    {
        RawExecutor { ready: Vec::new(), sleep: Vec::new(), pending: Vec::new() }
    }

    /// Queue a newly spawned task to be polled. Spawning a task already
    /// queued is a fault, which `requires` leaves out.
    pub fn spawn(&mut self, task: u32)
        requires
            old(self).wf(),
            !old(self).ready_tasks().contains(task),
        ensures
            final(self).wf(),
            final(self).ready_tasks() == old(self).ready_tasks().push(task),
            final(self).sleepers() == old(self).sleepers(),
            final(self).pending_tasks() == old(self).pending_tasks(),
    {
        proof {
            assert forall|i: int, j: int| 0 <= i < j < self.ready@.push(task).len() implies self.ready@.push(task)[i]
                != self.ready@.push(task)[j] by {
                if j == self.ready@.len() {
                    assert(self.ready@[i] == self.ready@.push(task)[i]);
                }
            }
        }
        self.ready.push(task);
    }

    /// Resume `task` from anywhere: it joins the pending queue unless it is
    /// already there.
    pub fn resume_task(&mut self, task: u32)
        requires
            old(self).wf(),
        ensures
            final(self).wf(),
            final(self).pending_tasks() == enqueue_unique(old(self).pending_tasks(), task),
            final(self).ready_tasks() == old(self).ready_tasks(),
            final(self).sleepers() == old(self).sleepers(),
    {
        proof {
            lemma_enqueue_all_unique(self.pending@, seq![task]);
            assert(seq![task].drop_last() =~= Seq::<u32>::empty());
        }
        push_unique(&mut self.pending, task);
    }

    /// Put `task` to sleep until `deadline`, after the sleepers due no later.
    pub fn task_sleep_until(&mut self, task: u32, deadline: Instant)
        requires
            old(self).wf(),
        ensures
            final(self).wf(),
            final(self).sleepers() == slept(old(self).sleepers(), SleepEntry { task, wakeup: deadline }),
            final(self).ready_tasks() == old(self).ready_tasks(),
            final(self).pending_tasks() == old(self).pending_tasks(),
    {
        insert_sleeper(&mut self.sleep, SleepEntry { task, wakeup: deadline });
    }

    /// Move the pending tasks to the ready queue, in order, skipping those
    /// already ready; returns whether any task was pending.
    pub fn resume_pending_tasks(&mut self) -> (r: bool)
        requires
            old(self).wf(),
        ensures
            final(self).wf(),
            final(self).ready_tasks() == enqueue_all(old(self).ready_tasks(), old(self).pending_tasks()),
            final(self).pending_tasks().len() == 0,
            final(self).sleepers() == old(self).sleepers(),
            r == (old(self).pending_tasks().len() > 0),
    {
        proof {
            lemma_enqueue_all_unique(self.ready@, self.pending@);
        }
        let became_ready = self.pending.len() > 0;
        let mut pending: Vec<u32> = Vec::new();
        std::mem::swap(&mut pending, &mut self.pending);
        push_all_unique(&mut self.ready, &pending);
        became_ready
    }

    /// Move the sleepers due at `now` to the ready queue, earliest first,
    /// skipping those already ready.
    pub fn resume_sleeping_tasks(&mut self, now: Instant)
        requires
            old(self).wf(),
        ensures
            final(self).wf(),
            ({
                let k = due_count(old(self).sleepers(), now) as int;
                &&& final(self).ready_tasks() == enqueue_all(
                    old(self).ready_tasks(),
                    sleeper_tasks(old(self).sleepers().subrange(0, k)),
                )
                &&& final(self).sleepers() == old(self).sleepers().subrange(k, old(self).sleepers().len() as int)
            }),
            final(self).pending_tasks() == old(self).pending_tasks(),
    {
        let mut due: Vec<u32> = Vec::new();
        move_due(&mut due, &mut self.sleep, now);
        proof {
            assert(due@ =~= sleeper_tasks(old(self).sleep@.subrange(0, due_count(old(self).sleep@, now) as int)));
            lemma_enqueue_all_unique(self.ready@, due@);
        }
        push_all_unique(&mut self.ready, &due);
    }

    /// Start a poll: resume the due sleepers, then the pending tasks. The
    /// caller then polls the tasks handed out by `next_ready`, and finally
    /// takes `poll_result`.
    pub fn begin_poll(&mut self, now: Instant)
        requires
            old(self).wf(),
        ensures
            final(self).wf(),
            ({
                let k = due_count(old(self).sleepers(), now) as int;
                &&& final(self).ready_tasks() == enqueue_all(
                    enqueue_all(old(self).ready_tasks(), sleeper_tasks(old(self).sleepers().subrange(0, k))),
                    old(self).pending_tasks(),
                )
                &&& final(self).sleepers() == old(self).sleepers().subrange(k, old(self).sleepers().len() as int)
                &&& final(self).pending_tasks().len() == 0
            }),
    {
        self.resume_sleeping_tasks(now);
        let _ = self.resume_pending_tasks();
    }

    /// Hand out the next ready task to poll.
    pub fn next_ready(&mut self) -> (r: Option<u32>)
        requires
            old(self).wf(),
        ensures
            final(self).wf(),
            old(self).ready_tasks().len() == 0 ==> r is None && final(self).ready_tasks() == old(self).ready_tasks(),
            old(self).ready_tasks().len() > 0 ==> r == Some(old(self).ready_tasks()[0])
                && final(self).ready_tasks() == old(self).ready_tasks().drop_first(),
            final(self).sleepers() == old(self).sleepers(),
            final(self).pending_tasks() == old(self).pending_tasks(),
    {
        let r = pop_ready(&mut self.ready);
        proof {
            assert forall|i: int, j: int| 0 <= i < j < self.ready@.len() implies self.ready@[i] != self.ready@[j] by {
                assert(self.ready@[i] == old(self).ready@[i + 1]);
                assert(self.ready@[j] == old(self).ready@[j + 1]);
            }
        }
        r
    }

    /// The deadline at which to poll again: the earliest sleeper's.
    pub fn poll_result(&self) -> (r: PollResult)
        ensures
            self.sleepers().len() == 0 ==> r.deadline_opt is None,
            self.sleepers().len() > 0 ==> r.deadline_opt == Some(self.sleepers()[0].wakeup),
    {
        if self.sleep.len() == 0 {
            PollResult { deadline_opt: None }
        } else {
            PollResult { deadline_opt: Some(self.sleep[0].wakeup) }
        }
    }
}

/// Whether the executor `b` is `a` with `task` resumed, as
/// [`LocalExecutor::resume_task`] does it from a context that is an
/// interrupt handler (`in_interrupt`) or not, `r` telling how the executor is
/// to be polled.
pub open spec fn task_resumed(a: LocalExecutor, b: LocalExecutor, task: u32, in_interrupt: bool, r: Option<WakeAction>) -> bool {
    &&& b.wf() == a.wf()
    &&& match (a, b) {
        (LocalExecutor::Thread(x), LocalExecutor::Thread(y)) => r is None && y.pending_tasks() == x.pending_tasks().push(task)
            && y.ready_tasks() == x.ready_tasks() && y.sleepers() == x.sleepers(),
        (LocalExecutor::Interrupt(x), LocalExecutor::Interrupt(y)) => r == Some(
            if in_interrupt {
                WakeAction::SetPollPending
            } else {
                WakeAction::PollNow
            },
        ) && y.pending_tasks() == x.pending_tasks().push(task) && y.ready_tasks() == x.ready_tasks()
            && y.sleepers() == x.sleepers() && y.interrupt_waiters() == x.interrupt_waiters(),
        _ => false,
    }
}

/// The executor of the current execution context, if it has one.
pub enum LocalExecutor {
    /// The context has no executor.
    Absent,
    Thread(ThreadExecutor),
    Interrupt(InterruptExecutor),
}

impl LocalExecutor {
    pub closed spec fn wf(&self) -> bool {
        match self {
            LocalExecutor::Absent => true,
            LocalExecutor::Thread(e) => e.wf(),
            LocalExecutor::Interrupt(e) => e.wf(),
        }
    }

    /// Put `task` to sleep until `deadline` on this executor. Using a
    /// context without an executor is a fault, which `requires` leaves out.
    pub fn task_sleep_until(&mut self, task: u32, deadline: Instant)
        requires
            old(self).wf(),
            !(*old(self) is Absent),
        ensures
            final(self).wf(),
            match (*old(self), *final(self)) {
                (LocalExecutor::Thread(a), LocalExecutor::Thread(b)) => b.sleepers() == slept(
                    a.sleepers(),
                    SleepEntry { task, wakeup: deadline },
                ) && b.ready_tasks() == a.ready_tasks() && b.pending_tasks() == a.pending_tasks(),
                (LocalExecutor::Interrupt(a), LocalExecutor::Interrupt(b)) => b.sleepers() == slept(
                    a.sleepers(),
                    SleepEntry { task, wakeup: deadline },
                ) && b.ready_tasks() == a.ready_tasks() && b.pending_tasks() == a.pending_tasks()
                    && b.interrupt_waiters() == a.interrupt_waiters(),
                _ => false,
            },
    {
        match self {
            LocalExecutor::Absent => {},
            LocalExecutor::Thread(e) => e.task_sleep_until(task, deadline),
            LocalExecutor::Interrupt(e) => e.task_sleep_until(task, deadline),
        }
    }

    /// Queue a newly spawned task on this executor. Using a context without
    /// an executor is a fault, which `requires` leaves out.
    pub fn spawn(&mut self, task: u32)
        requires
            !(*old(self) is Absent),
        ensures
            final(self).wf() == old(self).wf(),
            match (*old(self), *final(self)) {
                (LocalExecutor::Thread(a), LocalExecutor::Thread(b)) => b.ready_tasks() == a.ready_tasks().push(task)
                    && b.sleepers() == a.sleepers() && b.pending_tasks() == a.pending_tasks(),
                (LocalExecutor::Interrupt(a), LocalExecutor::Interrupt(b)) => b.ready_tasks() == a.ready_tasks().push(
                    task,
                ) && b.sleepers() == a.sleepers() && b.pending_tasks() == a.pending_tasks()
                    && b.interrupt_waiters() == a.interrupt_waiters(),
                _ => false,
            },
    {
        match self {
            LocalExecutor::Absent => {},
            LocalExecutor::Thread(e) => e.spawn(task),
            LocalExecutor::Interrupt(e) => e.spawn(task),
        }
    }

    /// Resume `task` on this executor from a context that is an interrupt
    /// handler or not; see the executors' `resume_task`. Returns how an
    /// interrupt executor is to be polled; a thread executor's thread is
    /// sent its wakeup event. Using a context without an executor is a
    /// fault, which `requires` leaves out.
    pub fn resume_task(&mut self, task: u32, in_interrupt: bool) -> (r: Option<WakeAction>)
        requires
            !(*old(self) is Absent),
        ensures
            final(self).wf() == old(self).wf(),
            match (*old(self), *final(self)) {
                (LocalExecutor::Thread(a), LocalExecutor::Thread(b)) => r is None && b.pending_tasks()
                    == a.pending_tasks().push(task) && b.ready_tasks() == a.ready_tasks() && b.sleepers()
                    == a.sleepers(),
                (LocalExecutor::Interrupt(a), LocalExecutor::Interrupt(b)) => r == Some(
                    if in_interrupt {
                        WakeAction::SetPollPending
                    } else {
                        WakeAction::PollNow
                    },
                ) && b.pending_tasks() == a.pending_tasks().push(task) && b.ready_tasks() == a.ready_tasks()
                    && b.sleepers() == a.sleepers() && b.interrupt_waiters() == a.interrupt_waiters(),
                _ => false,
            },
    {
        match self {
            LocalExecutor::Absent => None,
            LocalExecutor::Thread(e) => {
                e.resume_task(task);
                None
            },
            LocalExecutor::Interrupt(e) => Some(e.resume_task(task, in_interrupt)),
        }
    }

    /// Move this executor's pending tasks to its ready queue. Using a context
    /// without an executor is a fault, which `requires` leaves out.
    pub fn resume_pending_tasks(&mut self)
        requires
            !(*old(self) is Absent),
        ensures
            final(self).wf() == old(self).wf(),
            match (*old(self), *final(self)) {
                (LocalExecutor::Thread(a), LocalExecutor::Thread(b)) => b.ready_tasks() == a.ready_tasks()
                    + a.pending_tasks() && b.pending_tasks().len() == 0 && b.sleepers() == a.sleepers(),
                (LocalExecutor::Interrupt(a), LocalExecutor::Interrupt(b)) => b.ready_tasks() == a.ready_tasks()
                    + a.pending_tasks() && b.pending_tasks().len() == 0 && b.sleepers() == a.sleepers()
                    && b.interrupt_waiters() == a.interrupt_waiters(),
                _ => false,
            },
    {
        match self {
            LocalExecutor::Absent => {},
            LocalExecutor::Thread(e) => {
                let _ = e.resume_pending_tasks(false);
            },
            LocalExecutor::Interrupt(e) => e.resume_pending_tasks(),
        }
    }
}

} // verus!
