//! The life cycle of a task slot: claimed from a pool, initialized with a
//! future, polled until it completes, and freed once its output is read or
//! its handle dropped.
use crate::task::combinators::Polled;
use vstd::prelude::*;

verus! {

/// The slot holds no task.
pub const ASYNC_TASK_STATE_FREE: u32 = 0u32;

/// The slot is claimed and being initialized.
pub const ASYNC_TASK_STATE_UNINIT: u32 = 1u32;

/// The slot's task is running.
pub const ASYNC_TASK_STATE_RUNNING: u32 = 2u32;

/// The slot's task completed; its output waits to be read.
pub const ASYNC_TASK_STATE_FINISHED: u32 = 3u32;

/// A task slot: its state, the output of a finished task, and the task
/// waiting to join it.
pub struct Task<T> {
    state: u32,
    output: Option<T>,
    join_waiter: Option<u32>,
}

impl<T> Task<T> {
    /// The slot's state is one of the four, and it holds an output exactly
    /// when its task is finished.
    pub closed spec fn wf(&self) -> bool {
        &&& self.state <= ASYNC_TASK_STATE_FINISHED
        &&& (self.output is Some <==> self.state == ASYNC_TASK_STATE_FINISHED)
    }

    pub closed spec fn spec_state(&self) -> u32 {
        self.state
    }

    pub closed spec fn spec_output(&self) -> Option<T> {
        self.output
    }

    /// The task registered to be woken when this one completes.
    pub closed spec fn spec_join_waiter(&self) -> Option<u32> {
        self.join_waiter
    }

    /// A free slot.
    pub fn new() -> (r: Task<T>)
        ensures
            r.wf(),
            r.spec_state() == ASYNC_TASK_STATE_FREE,
            r.spec_join_waiter() is None,
    {
        Task { state: ASYNC_TASK_STATE_FREE, output: None, join_waiter: None }
    }

    pub fn state(&self) -> (r: u32)
        ensures
            r == self.spec_state(),
    {
        self.state
    }

    /// Claim the slot if it is free; returns whether it was.
    pub fn claim(&mut self) -> (r: bool)
        requires
            old(self).wf(),
        ensures
            final(self).wf(),
            r == (old(self).spec_state() == ASYNC_TASK_STATE_FREE),
            r ==> final(self).spec_state() == ASYNC_TASK_STATE_UNINIT,
            !r ==> *final(self) == *old(self),
            final(self).spec_join_waiter() == old(self).spec_join_waiter(),
    {
        if self.state == ASYNC_TASK_STATE_FREE {
            self.state = ASYNC_TASK_STATE_UNINIT;
            true
        } else {
            false
        }
    }

    /// Start the claimed slot's task: it is running, with no output and no
    /// join waiter yet.
    pub fn init(&mut self)
        requires
            old(self).wf(),
            old(self).spec_state() == ASYNC_TASK_STATE_UNINIT,
        ensures
            final(self).wf(),
            final(self).spec_state() == ASYNC_TASK_STATE_RUNNING,
            final(self).spec_join_waiter() is None,
    {
        self.state = ASYNC_TASK_STATE_RUNNING;
        self.join_waiter = None;
    }

    /// Record one poll of the task's future. A task that is not running is
    /// done. A running task whose future is ready finishes: its output is
    /// kept and the join waiter, if any, is handed back to be woken. Returns
    /// whether the task is done, and the waiter to wake.
    pub fn poll(&mut self, outcome: Polled<T>) -> (r: (bool, Option<u32>))
        requires
            old(self).wf(),
        ensures
            final(self).wf(),
            old(self).spec_state() != ASYNC_TASK_STATE_RUNNING ==> r == (true, None::<u32>) && *final(self) == *old(self),
            old(self).spec_state() == ASYNC_TASK_STATE_RUNNING ==> match outcome {
                Polled::Ready(v) => r == (true, old(self).spec_join_waiter())
                    && final(self).spec_state() == ASYNC_TASK_STATE_FINISHED
                    && final(self).spec_output() == Some(v) && final(self).spec_join_waiter() is None,
                Polled::Pending => r == (false, None::<u32>) && *final(self) == *old(self),
            },
    {
        if self.state != ASYNC_TASK_STATE_RUNNING {
            return (true, None);
        }
        match outcome {
            Polled::Ready(v) => {
                self.output = Some(v);
                self.state = ASYNC_TASK_STATE_FINISHED;
                let waiter = self.join_waiter.take();
                (true, waiter)
            },
            Polled::Pending => (false, None),
        }
    }

    /// Read the output of a finished task, which frees the slot; otherwise
    /// register `waiter` to be woken when the task completes.
    pub fn try_read_output(&mut self, waiter: u32) -> (r: Polled<T>)
        requires
            old(self).wf(),
        ensures
            final(self).wf(),
            old(self).spec_state() == ASYNC_TASK_STATE_FINISHED ==> r == Polled::Ready(old(self).spec_output()->0)
                && final(self).spec_state() == ASYNC_TASK_STATE_FREE,
            old(self).spec_state() != ASYNC_TASK_STATE_FINISHED ==> r is Pending
                && final(self).spec_state() == old(self).spec_state()
                && final(self).spec_join_waiter() == Some(waiter),
    {
        if self.state == ASYNC_TASK_STATE_FINISHED {
            let v = self.output.take().unwrap();
            self.state = ASYNC_TASK_STATE_FREE;
            Polled::Ready(v)
        } else {
            self.join_waiter = Some(waiter);
            Polled::Pending
        }
    }

    /// Drop the handle: a finished task's slot is freed with its output; a
    /// task still running keeps running and keeps its slot.
    pub fn drop_handle(&mut self)
        requires
            old(self).wf(),
        ensures
            final(self).wf(),
            old(self).spec_state() == ASYNC_TASK_STATE_FINISHED ==> final(self).spec_state() == ASYNC_TASK_STATE_FREE,
            old(self).spec_state() != ASYNC_TASK_STATE_FINISHED ==> *final(self) == *old(self),
    {
        if self.state == ASYNC_TASK_STATE_FINISHED {
            self.output = None;
            self.state = ASYNC_TASK_STATE_FREE;
        }
    }
}

/// A task's output is read at most once: reading it frees the slot, and a
/// free slot has no output to give.
pub proof fn lemma_output_read_once<T>(after_read: Task<T>)
    requires
        after_read.wf(),
        after_read.spec_state() == ASYNC_TASK_STATE_FREE,
    ensures
        after_read.spec_output() is None,
{
}

/// A fixed number of task slots.
pub struct TaskPool<T> {
    tasks: Vec<Task<T>>,
}

impl<T> TaskPool<T> {
    pub closed spec fn wf(&self) -> bool {
        forall|i: int| 0 <= i < self.tasks@.len() ==> #[trigger] self.tasks@[i].wf()
    }

    /// The slots.
    pub closed spec fn slots(&self) -> Seq<Task<T>> {
        self.tasks@
    }

    /// A pool of `n` free slots.
    pub fn new(n: usize) -> (r: TaskPool<T>)
        ensures
            r.wf(),
            r.slots().len() == n,
            forall|i: int| 0 <= i < n ==> #[trigger] r.slots()[i].spec_state() == ASYNC_TASK_STATE_FREE,
    {
        let mut tasks: Vec<Task<T>> = Vec::new();
        let mut i: usize = 0;
        while i < n
            invariant
                i <= n,
                tasks@.len() == i,
                forall|j: int| 0 <= j < i ==> (#[trigger] tasks@[j]).wf() && tasks@[j].spec_state() == ASYNC_TASK_STATE_FREE,
            decreases n - i,
        {
            tasks.push(Task::new());
            i = i + 1;
        }
        TaskPool { tasks }
    }

    /// Claim the first free slot; `None` if every slot is taken.
    pub fn alloc_slot(&mut self) -> (r: Option<usize>)
        requires
            old(self).wf(),
        ensures
            final(self).wf(),
            final(self).slots().len() == old(self).slots().len(),
            r is None ==> final(self).slots() == old(self).slots() && forall|i: int|
                0 <= i < old(self).slots().len() ==> #[trigger] old(self).slots()[i].spec_state() != ASYNC_TASK_STATE_FREE,
            r matches Some(k) ==> k < old(self).slots().len()
                && old(self).slots()[k as int].spec_state() == ASYNC_TASK_STATE_FREE
                && (forall|i: int| 0 <= i < k ==> #[trigger] old(self).slots()[i].spec_state() != ASYNC_TASK_STATE_FREE)
                && final(self).slots()[k as int].spec_state() == ASYNC_TASK_STATE_UNINIT
                && (forall|i: int| 0 <= i < old(self).slots().len() && i != k ==> #[trigger] final(self).slots()[i] == old(self).slots()[i]),
    {
        let mut i: usize = 0;
        let len = self.tasks.len();
        while i < len
            invariant
                len == self.tasks@.len(),
                self.tasks@ == old(self).tasks@,
                forall|j: int| 0 <= j < self.tasks@.len() ==> #[trigger] self.tasks@[j].wf(),
                i <= len,
                forall|j: int| 0 <= j < i ==> #[trigger] self.tasks@[j].spec_state() != ASYNC_TASK_STATE_FREE,
            decreases len - i,
        {
            if self.tasks[i].state == ASYNC_TASK_STATE_FREE {
                let mut t = self.tasks.remove(i);
                let claimed = t.claim();
                self.tasks.insert(i, t);
                assert(claimed);
                return Some(i);
            }
            i = i + 1;
        }
        None
    }

    /// The slot at `index`.
    pub fn slot(&mut self, index: usize) -> (r: &mut Task<T>)
        requires
            index < old(self).slots().len(),
        ensures
            *r == old(self).slots()[index as int],
            final(self).slots() == old(self).slots().update(index as int, *final(r)),
    {
        &mut self.tasks[index]
    }
}

/// The joining end of a spawned task.
pub struct JoinHandle {
    finished: bool,
}

impl JoinHandle {
    pub closed spec fn spec_finished(&self) -> bool {
        self.finished
    }

    pub fn new() -> (r: JoinHandle)
        ensures
            !r.spec_finished(),
    {
        JoinHandle { finished: false }
    }

    /// Whether the output has been read.
    pub fn is_finished(&self) -> (r: bool)
        ensures
            r == self.spec_finished(),
    {
        self.finished
    }

    /// One poll of the join by task `waiter`: the output once the task has
    /// finished, after which the handle is finished. Polling a finished handle
    /// is a fault, which `requires` leaves out.
    pub fn poll<T>(&mut self, task: &mut Task<T>, waiter: u32) -> (r: Polled<T>)
        requires
            !old(self).spec_finished(),
            old(task).wf(),
        ensures
            final(task).wf(),
            old(task).spec_state() == ASYNC_TASK_STATE_FINISHED ==> r == Polled::Ready(old(task).spec_output()->0)
                && final(task).spec_state() == ASYNC_TASK_STATE_FREE && final(self).spec_finished(),
            old(task).spec_state() != ASYNC_TASK_STATE_FINISHED ==> r is Pending && !final(self).spec_finished()
                && final(task).spec_join_waiter() == Some(waiter),
    {
        let r = task.try_read_output(waiter);
        if let Polled::Ready(_) = &r {
            self.finished = true;
        }
        r
    }
}

} // verus!
