//! Cooperative yield: the first poll hands the executor a chance to poll
//! other ready tasks; the second completes.
use crate::task::combinators::Polled;
use crate::task::executor::{task_resumed, LocalExecutor, WakeAction};
use vstd::prelude::*;

verus! {

pub struct YieldNow {
    yielded: bool,
}

impl YieldNow {
    pub closed spec fn spec_yielded(&self) -> bool {
        self.yielded
    }

    /// One poll by `task` of `executor`, from a context that is an
    /// interrupt handler (`in_interrupt`) or not. The first poll is pending:
    /// it resumes the task on its executor, so that other ready tasks are
    /// polled before it, and returns how the executor is to be notified.
    /// Every later poll is ready and leaves the executor alone. A first poll
    /// in a context without an executor is a fault, which `requires` leaves
    /// out.
    pub fn poll(&mut self, executor: &mut LocalExecutor, task: u32, in_interrupt: bool) -> (r: (Polled<()>, Option<WakeAction>))
        requires
            !old(self).spec_yielded() ==> !(*old(executor) is Absent),
        ensures
            old(self).spec_yielded() ==> r.0 == Polled::Ready(()) && r.1 is None && *final(executor) == *old(executor),
            !old(self).spec_yielded() ==> r.0 is Pending && task_resumed(*old(executor), *final(executor), task, in_interrupt, r.1),
            final(self).spec_yielded(),
    {
        if self.yielded {
            (Polled::Ready(()), None)
        } else {
            self.yielded = true;
            let action = executor.resume_task(task, in_interrupt);
            (Polled::Pending, action)
        }
    }
}

/// Yield once.
pub fn yield_now() -> (r: YieldNow)
    ensures
        !r.spec_yielded(),
{
    YieldNow { yielded: false }
}

} // verus!
