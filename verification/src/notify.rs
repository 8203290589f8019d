//! Wait queue with notify-one / notify-all wake semantics. The
//! highest-priority waiter is woken first; waiters of equal priority are woken
//! in the order in which they were queued.
use crate::priority::{rank, Priority};
use crate::protected::WaitMarker;
use crate::thread::RawThread;
use crate::time::Instant;
use crate::task::combinators::Polled;
use vstd::prelude::*;

verus! {

/// A queued waiter: the thread that waits and the priority it waits at.
#[derive(Copy, Clone, Debug, PartialEq, Eq, Structural)]
pub struct WaitEntry {
    pub thread_id: u32,
    pub priority: Priority,
}

/// The waiters are ordered by priority, highest first.
pub open spec fn priority_sorted(s: Seq<WaitEntry>) -> bool {
    forall|i: int, j: int| 0 <= i < j < s.len() ==> rank(s[i].priority) >= rank(s[j].priority)
}

/// The place at which a waiter of priority `p` is queued: after every waiter
/// of the same or a higher priority.
pub open spec fn insert_position(s: Seq<WaitEntry>, p: Priority) -> int
    decreases s.len(),
{
    if s.len() == 0 {
        0
    } else if rank(s[0].priority) >= rank(p) {
        1 + insert_position(s.drop_first(), p)
    } else {
        0
    }
}

/// The queue after queuing `e`.
pub open spec fn queued(s: Seq<WaitEntry>, e: WaitEntry) -> Seq<WaitEntry> {
    s.insert(insert_position(s, e.priority), e)
}

proof fn lemma_insert_position(s: Seq<WaitEntry>, p: Priority)
    requires
        priority_sorted(s),
    ensures
        0 <= insert_position(s, p) <= s.len(),
        forall|i: int| 0 <= i < insert_position(s, p) ==> rank(#[trigger] s[i].priority) >= rank(p),
        forall|i: int| insert_position(s, p) <= i < s.len() ==> rank(#[trigger] s[i].priority) < rank(p),
    decreases s.len(),
{
    if s.len() > 0 {
        let t = s.drop_first();
        assert(priority_sorted(t));
        lemma_insert_position(t, p);
        if rank(s[0].priority) >= rank(p) {
            assert forall|i: int| 0 <= i < insert_position(s, p) implies rank(#[trigger] s[i].priority) >= rank(p) by {
                if i > 0 {
                    assert(s[i] == t[i - 1]);
                }
            }
            assert forall|i: int| insert_position(s, p) <= i < s.len() implies rank(#[trigger] s[i].priority) < rank(p) by {
                assert(s[i] == t[i - 1]);
            }
        } else {
            assert forall|i: int| 0 <= i < s.len() implies rank(#[trigger] s[i].priority) < rank(p) by {
                if i > 0 {
                    assert(rank(s[0].priority) >= rank(s[i].priority));
                }
            }
        }
    }
}

/// Queuing a waiter keeps the queue ordered by priority.
pub proof fn lemma_queued_sorted(s: Seq<WaitEntry>, e: WaitEntry)
    requires
        priority_sorted(s),
    ensures
        priority_sorted(queued(s, e)),
        queued(s, e).len() == s.len() + 1,
{
    lemma_insert_position(s, e.priority);
    let pos = insert_position(s, e.priority);
    let r = queued(s, e);
    assert forall|i: int, j: int| 0 <= i < j < r.len() implies rank(r[i].priority) >= rank(
        r[j].priority,
    ) by {
        if i < pos {
            assert(r[i] == s[i]);
            if j < pos {
                assert(r[j] == s[j]);
            } else if j > pos {
                assert(r[j] == s[j - 1]);
            }
        } else if i == pos {
            assert(r[j] == s[j - 1]);
        } else {
            assert(r[i] == s[i - 1]);
            assert(r[j] == s[j - 1]);
        }
    }
}

/// Whether a waiter of thread `thread_id` is in the queue.
pub open spec fn is_queued(s: Seq<WaitEntry>, thread_id: u32) -> bool {
    exists|i: int| 0 <= i < s.len() && #[trigger] s[i].thread_id == thread_id
}

/// The queue after taking out the first waiter of thread `thread_id`, if any.
pub open spec fn without_thread(s: Seq<WaitEntry>, thread_id: u32) -> Seq<WaitEntry>
    decreases s.len(),
{
    if s.len() == 0 {
        s
    } else if s[0].thread_id == thread_id {
        s.drop_first()
    } else {
        seq![s[0]] + without_thread(s.drop_first(), thread_id)
    }
}

proof fn lemma_without_thread(s: Seq<WaitEntry>, thread_id: u32, i: int)
    requires
        0 <= i <= s.len(),
        forall|j: int| 0 <= j < i ==> #[trigger] s[j].thread_id != thread_id,
        i < s.len() ==> s[i].thread_id == thread_id,
    ensures
        i < s.len() ==> without_thread(s, thread_id) == s.remove(i),
        i == s.len() ==> without_thread(s, thread_id) == s,
    decreases s.len(),
{
    if s.len() > 0 {
        if i > 0 {
            let t = s.drop_first();
            assert forall|j: int| 0 <= j < i - 1 implies #[trigger] t[j].thread_id != thread_id by {
                assert(t[j] == s[j + 1]);
            }
            lemma_without_thread(t, thread_id, i - 1);
            if i < s.len() {
                assert(s.remove(i) =~= seq![s[0]] + t.remove(i - 1));
            } else {
                assert(s =~= seq![s[0]] + t);
            }
        } else {
            assert(s.remove(0) =~= s.drop_first());
        }
    }
}

pub struct WaitList {
    entries: Vec<WaitEntry>,
}

impl View for WaitList {
    type V = Seq<WaitEntry>;

    /// The queued waiters, in the order in which they are woken.
    closed spec fn view(&self) -> Seq<WaitEntry> {
        self.entries@
    }
}

impl WaitList {
    pub fn new() -> (r: WaitList)
        ensures
            r@ == Seq::<WaitEntry>::empty(),
    {
        WaitList { entries: Vec::new() }
    }

    /// Queue `entry` after every waiter of the same or a higher priority.
    pub fn push_priority(&mut self, entry: WaitEntry)
        requires
            priority_sorted(old(self)@),
        ensures
            final(self)@ == queued(old(self)@, entry),
            priority_sorted(final(self)@),
    {
        proof {
            lemma_insert_position(self@, entry.priority);
            lemma_queued_sorted(self@, entry);
        }
        let mut pos: usize = 0;
        let len = self.entries.len();
        while pos < len && !(self.entries[pos].priority < entry.priority)
            invariant
                len == self.entries@.len(),
                priority_sorted(self.entries@),
                0 <= pos <= len,
                pos <= insert_position(self.entries@, entry.priority),
                0 <= insert_position(self.entries@, entry.priority) <= len,
                forall|i: int| insert_position(self.entries@, entry.priority) <= i < len ==> rank(#[trigger] self.entries@[i].priority) < rank(entry.priority),
                forall|i: int| 0 <= i < insert_position(self.entries@, entry.priority) ==> rank(#[trigger] self.entries@[i].priority) >= rank(entry.priority),
            decreases len - pos,
        {
            pos = pos + 1;
        }
        assert(pos == insert_position(self.entries@, entry.priority)) by {
            if pos < insert_position(self.entries@, entry.priority) {
                assert(rank(self.entries@[pos as int].priority) >= rank(entry.priority));
            }
        }
        self.entries.insert(pos, entry);
    }

    /// Remove and return the first waiter, if any.
    pub fn pop_front(&mut self) -> (r: Option<WaitEntry>)
        ensures
            old(self)@.len() == 0 ==> r is None && final(self)@ == old(self)@,
            old(self)@.len() > 0 ==> r == Some(old(self)@[0]) && final(self)@ == old(self)@.drop_first(),
    {
        if self.entries.len() == 0 {
            None
        } else {
            let e = self.entries.remove(0);
            assert(self.entries@ =~= old(self)@.drop_first());
            Some(e)
        }
    }

    /// Remove the waiter of thread `thread_id`, if queued; returns whether one
    /// was removed.
    pub fn remove(&mut self, thread_id: u32) -> (r: bool)
        ensures
            r == (exists|i: int| 0 <= i < old(self)@.len() && #[trigger] old(self)@[i].thread_id == thread_id),
            !r ==> final(self)@ == old(self)@,
            r ==> exists|i: int|
                0 <= i < old(self)@.len() && old(self)@[i].thread_id == thread_id
                    && (forall|j: int| 0 <= j < i ==> #[trigger] old(self)@[j].thread_id != thread_id)
                    && final(self)@ == old(self)@.remove(i),
            final(self)@ == without_thread(old(self)@, thread_id),
    {
        let mut i: usize = 0;
        let len = self.entries.len();
        while i < len
            invariant
                len == self.entries@.len(),
                self.entries@ == old(self)@,
                0 <= i <= len,
                forall|j: int| 0 <= j < i ==> #[trigger] old(self)@[j].thread_id != thread_id,
            decreases len - i,
        {
            if self.entries[i].thread_id == thread_id {
                proof {
                    lemma_without_thread(self.entries@, thread_id, i as int);
                }
                let _ = self.entries.remove(i);
                return true;
            }
            i = i + 1;
        }
        proof {
            lemma_without_thread(self.entries@, thread_id, i as int);
        }
        false
    }

    pub fn is_empty(&self) -> (r: bool)
        ensures
            r == (self@.len() == 0),
    {
        self.entries.len() == 0
    }

    /// Whether a waiter of thread `thread_id` is queued.
    pub fn contains(&self, thread_id: u32) -> (r: bool)
        ensures
            r == is_queued(self@, thread_id),
    {
        let mut i: usize = 0;
        let len = self.entries.len();
        while i < len
            invariant
                len == self.entries@.len(),
                0 <= i <= len,
                forall|j: int| 0 <= j < i ==> #[trigger] self.entries@[j].thread_id != thread_id,
            decreases len - i,
        {
            if self.entries[i].thread_id == thread_id {
                return true;
            }
            i = i + 1;
        }
        false
    }

    pub fn len(&self) -> (r: usize)
        ensures
            r == self@.len(),
    {
        self.entries.len()
    }
}

/// Removing a waiter keeps the queue ordered by priority.
pub proof fn lemma_remove_sorted(s: Seq<WaitEntry>, i: int)
    requires
        priority_sorted(s),
        0 <= i < s.len(),
    ensures
        priority_sorted(s.remove(i)),
{
    let r = s.remove(i);
    assert forall|a: int, b: int| 0 <= a < b < r.len() implies rank(r[a].priority) >= rank(
        r[b].priority,
    ) by {
        let oa = if a < i { a } else { a + 1 };
        let ob = if b < i { b } else { b + 1 };
        assert(r[a] == s[oa]);
        assert(r[b] == s[ob]);
    }
}

/// The first waiter of an ordered queue has the highest priority of all.
pub proof fn lemma_front_is_highest(s: Seq<WaitEntry>)
    requires
        priority_sorted(s),
        s.len() > 0,
    ensures
        forall|i: int| 0 <= i < s.len() ==> rank(#[trigger] s[i].priority) <= rank(s[0].priority),
{
}

/// Waiters of equal priority are woken in the order in which they were
/// queued: queuing `e1` and then `e2` at the same priority leaves `e1` at its
/// place and puts `e2` after it.
pub proof fn lemma_equal_priority_fifo(s: Seq<WaitEntry>, e1: WaitEntry, e2: WaitEntry)
    requires
        priority_sorted(s),
        rank(e1.priority) == rank(e2.priority),
    ensures
        ({
            let k = insert_position(s, e1.priority);
            let s1 = queued(s, e1);
            let s2 = queued(s1, e2);
            &&& insert_position(s1, e2.priority) > k
            &&& s2[k] == e1
            &&& s2[insert_position(s1, e2.priority)] == e2
        }),
{
    lemma_insert_position(s, e1.priority);
    let k = insert_position(s, e1.priority);
    let s1 = queued(s, e1);
    lemma_queued_sorted(s, e1);
    lemma_insert_position(s1, e2.priority);
    let k2 = insert_position(s1, e2.priority);
    assert(s1[k] == e1);
    if k2 <= k {
        assert(rank(s1[k].priority) < rank(e2.priority));
        assert(false);
    }
}

/// The waiters that waking the first waiter of `s` wakes: its first one, if
/// any.
pub open spec fn woken_by_one(s: Seq<WaitEntry>) -> Seq<WaitEntry> {
    if s.len() == 0 {
        Seq::<WaitEntry>::empty()
    } else {
        seq![s[0]]
    }
}

/// Record the waiter that a wake woke, if any, for the kernel to resume.
pub fn record_woken(woken: &mut Vec<WaitEntry>, w: Option<WaitEntry>)
    ensures
        w is None ==> final(woken)@ == old(woken)@,
        w matches Some(e) ==> final(woken)@ == old(woken)@.push(e),
{
    if let Some(e) = w {
        woken.push(e);
    }
}

/// Wait queue with notify-one / notify-all wake semantics.
pub struct Notify {
    wait_list: WaitList,
}

impl View for Notify {
    type V = Seq<WaitEntry>;

    closed spec fn view(&self) -> Seq<WaitEntry> {
        self.wait_list@
    }
}

impl Notify {
    /// Waiters are kept ordered by priority.
    pub closed spec fn wf(&self) -> bool {
        priority_sorted(self.wait_list@)
    }

    /// Create an empty notify.
    pub fn new() -> (r: Notify)
        ensures
            r.wf(),
            r@ == Seq::<WaitEntry>::empty(),
    {
        Notify { wait_list: WaitList::new() }
    }

    /// Queue `waiter` on this notify. The returned marker is handed out of a
    /// barrier closure to suspend the waiter until it is notified.
    pub fn arm(&mut self, waiter: WaitEntry) -> (r: WaitMarker)
        requires
            old(self).wf(),
        ensures
            final(self).wf(),
            final(self)@ == queued(old(self)@, waiter),
    {
        self.wait_list.push_priority(waiter);
        WaitMarker::new()
    }

    /// Queue `waiter`, then run `between` before the waiter is suspended.
    /// `between` is handed the wait queue as it stands once the waiter is
    /// queued, so it runs only after that.
    pub fn wait_with<F: FnOnce(Ghost<Seq<WaitEntry>>)>(&mut self, waiter: WaitEntry, between: F)
        requires
            old(self).wf(),
            between.requires((Ghost(queued(old(self)@, waiter)),)),
        ensures
            final(self).wf(),
            final(self)@ == queued(old(self)@, waiter),
            between.ensures((Ghost(queued(old(self)@, waiter)),), ()),
    {
        self.wait_list.push_priority(waiter);
        between(Ghost(self@));
    }

    /// Queue `waiter`; it is suspended until notified.
    pub fn wait(&mut self, waiter: WaitEntry)
        requires
            old(self).wf(),
        ensures
            final(self).wf(),
            final(self)@ == queued(old(self)@, waiter),
    {
        self.wait_list.push_priority(waiter);
    }

    /// Queue `waiter`, run `between`, and set the waiting thread's pending
    /// block deadline: the thread is suspended until notified or until
    /// `deadline`, and then reads the outcome with
    /// `RawThread::take_last_wait_outcome`. `between` is handed the wait queue
    /// as it stands once the waiter is queued, so it runs only after that.
    pub fn wait_until_with<F: FnOnce(Ghost<Seq<WaitEntry>>)>(
        &mut self,
        waiter: WaitEntry,
        between: F,
        thread: &mut RawThread,
        deadline: Instant,
    )
        requires
            old(self).wf(),
            between.requires((Ghost(queued(old(self)@, waiter)),)),
        ensures
            final(self).wf(),
            final(self)@ == queued(old(self)@, waiter),
            between.ensures((Ghost(queued(old(self)@, waiter)),), ()),
            final(thread).spec_pending_block_deadline() == Some(deadline),
            final(thread).spec_priority() == old(thread).spec_priority(),
            final(thread).spec_thread_id() == old(thread).spec_thread_id(),
            final(thread).wf() == old(thread).wf(),
    {
        self.wait_list.push_priority(waiter);
        between(Ghost(self@));
        thread.set_pending_block_deadline(Some(deadline));
    }

    /// Queue `waiter` until notified or until `deadline`; see
    /// [`wait_until_with`](Self::wait_until_with).
    pub fn wait_until(&mut self, waiter: WaitEntry, thread: &mut RawThread, deadline: Instant)
        requires
            old(self).wf(),
        ensures
            final(self).wf(),
            final(self)@ == queued(old(self)@, waiter),
            final(thread).spec_pending_block_deadline() == Some(deadline),
            final(thread).spec_priority() == old(thread).spec_priority(),
            final(thread).spec_thread_id() == old(thread).spec_thread_id(),
            final(thread).wf() == old(thread).wf(),
    {
        self.wait_list.push_priority(waiter);
        thread.set_pending_block_deadline(Some(deadline));
    }

    /// Wake the highest-priority waiter, if any, and return it.
    pub fn notify_one(&mut self) -> (r: Option<WaitEntry>)
        requires
            old(self).wf(),
        ensures
            final(self).wf(),
            old(self)@.len() == 0 ==> r is None && final(self)@ == old(self)@,
            old(self)@.len() > 0 ==> r == Some(old(self)@[0]) && final(self)@ == old(self)@.drop_first(),
            r matches Some(e) ==> forall|i: int|
                0 <= i < old(self)@.len() ==> rank(#[trigger] old(self)@[i].priority) <= rank(
                    e.priority,
                ),
    {
        proof {
            if self@.len() > 0 {
                lemma_remove_sorted(self@, 0);
                assert(self@.remove(0) =~= self@.drop_first());
            }
        }
        self.wait_list.pop_front()
    }

    /// Wake every waiter currently queued; returns them in wake order.
    pub fn notify_all(&mut self) -> (r: Vec<WaitEntry>)
        requires
            old(self).wf(),
        ensures
            final(self).wf(),
            final(self)@.len() == 0,
            r@ == old(self)@,
    {
        let mut woken: Vec<WaitEntry> = Vec::new();
        loop
            invariant
                self.wf(),
                woken@ + self@ == old(self)@,
            ensures
                self.wf(),
                self@.len() == 0,
                woken@ == old(self)@,
            decreases self@.len(),
        {
            proof {
                if self@.len() > 0 {
                    lemma_remove_sorted(self@, 0);
                    assert(self@.remove(0) =~= self@.drop_first());
                }
            }
            let ghost before = self@;
            match self.wait_list.pop_front() {
                Some(e) => {
                    woken.push(e);
                    assert(woken@ + self@ =~= old(self)@) by {
                        assert(before =~= seq![e] + before.drop_first());
                    }
                },
                None => {
                    assert(woken@ =~= old(self)@);
                    break;
                },
            }
        }
        woken
    }

    /// Remove the waiter of thread `thread_id` (a timed-out wait); returns
    /// whether it was still queued.
    pub fn remove(&mut self, thread_id: u32) -> (r: bool)
        requires
            old(self).wf(),
        ensures
            final(self).wf(),
            r == (exists|i: int| 0 <= i < old(self)@.len() && #[trigger] old(self)@[i].thread_id == thread_id),
            !r ==> final(self)@ == old(self)@,
            r ==> final(self)@.len() == old(self)@.len() - 1,
            final(self)@ == without_thread(old(self)@, thread_id),
    {
        let ghost before = self@;
        let r = self.wait_list.remove(thread_id);
        proof {
            if r {
                let i = choose|i: int|
                    0 <= i < before.len() && before[i].thread_id == thread_id
                        && (forall|j: int| 0 <= j < i ==> #[trigger] before[j].thread_id != thread_id)
                        && self@ == before.remove(i);
                lemma_remove_sorted(before, i);
            }
        }
        r
    }

    /// Whether no waiter is queued.
    pub fn is_empty(&self) -> (r: bool)
        ensures
            r == (self@.len() == 0),
    {
        self.wait_list.is_empty()
    }

    /// One poll of an asynchronous wait by the task `waiter`: the first poll
    /// (`armed` false) queues the waiter and is pending; every later one is
    /// ready once a notify has taken the waiter off the queue, and pending
    /// while it is still queued.
    pub fn poll_async_wait(&mut self, waiter: WaitEntry, armed: bool) -> (r: Polled<()>)
        requires
            old(self).wf(),
        ensures
            final(self).wf(),
            !armed ==> r is Pending && final(self)@ == queued(old(self)@, waiter),
            armed ==> final(self)@ == old(self)@ && (r is Ready <==> !is_queued(old(self)@, waiter.thread_id)),
    {
        if !armed {
            self.wait_list.push_priority(waiter);
            Polled::Pending
        } else if self.wait_list.contains(waiter.thread_id) {
            Polled::Pending
        } else {
            Polled::Ready(())
        }
    }
    /// Requeue the waiter of thread `thread_id`, if it is queued, at its new
    /// `priority` (its priority changed while it waited); returns whether it
    /// was queued. A waiter already woken is left alone.
    pub fn reinsert(&mut self, thread_id: u32, priority: Priority) -> (r: bool)
        requires
            old(self).wf(),
        ensures
            final(self).wf(),
            r == (exists|i: int| 0 <= i < old(self)@.len() && #[trigger] old(self)@[i].thread_id == thread_id),
            r ==> final(self)@ == queued(
                without_thread(old(self)@, thread_id),
                WaitEntry { thread_id, priority },
            ),
            !r ==> final(self)@ == old(self)@,
    {
        if self.remove(thread_id) {
            self.wait_list.push_priority(WaitEntry { thread_id, priority });
            true
        } else {
            false
        }
    }
}

} // verus!
