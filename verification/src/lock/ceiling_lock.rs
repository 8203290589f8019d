//! The ceiling lock: taking it raises the holder to the lock's ceiling
//! priority and sets the core's ceiling, so that threads and interrupts below
//! the ceiling cannot run while it is held.
//!
//! As a nesting lock it is released in reverse order of acquisition, each
//! release restoring the priority and ceiling saved when it was taken. As a
//! scoped lock it is recorded in the holder's list of held locks and may be
//! released in any order.
use crate::lock::{ContextId, TryLockError};
use crate::priority::{rank, spec_max_valid, spec_priority, spec_some, Priority, PriorityOpt};
use crate::thread::{
    lemma_wf_priority,
    ceiling_head, ceiling_position, lemma_thread_priority_bounds, spec_effective_priority, without_lock,
    spec_lock_priority, CeilingLockEntry, CoreId, RawThread, IDLE_THREAD_ID,
};
use crate::interrupt::RawInterruptHandler;
use vstd::prelude::*;

verus! {

/// The core's ceiling: the priority below which nothing may run.
pub struct CeilingState {
    ceiling: PriorityOpt,
}

impl CeilingState {
    pub closed spec fn spec_ceiling(&self) -> PriorityOpt {
        self.ceiling
    }

    pub fn new() -> (r: CeilingState)
        ensures
            r.spec_ceiling() is Absent,
    {
        CeilingState { ceiling: PriorityOpt::none() }
    }

    pub fn get_ceiling(&self) -> (r: PriorityOpt)
        ensures
            r == self.spec_ceiling(),
    {
        self.ceiling
    }

    pub fn set_ceiling(&mut self, ceiling: PriorityOpt)
        ensures
            final(self).spec_ceiling() == ceiling,
    {
        self.ceiling = ceiling;
    }
}

/// What releasing a nesting ceiling lock restores.
#[derive(Copy, Clone, Debug)]
pub struct CeilingLockRestoreState {
    pub saved_priority: PriorityOpt,
    pub saved_ceiling: PriorityOpt,
}

/// Whether `thread` may take a ceiling lock of ceiling `ceiling`: it does not
/// run above the ceiling.
pub open spec fn may_take_ceiling(thread: RawThread, ceiling: Priority) -> bool {
    rank(thread.spec_priority()) <= rank(ceiling)
}

/// The thread-side facts a taken nesting ceiling lock establishes.
pub open spec fn nesting_taken(old_thread: RawThread, thread: RawThread, ceiling: Priority) -> bool {
    &&& thread.wf()
    &&& thread.spec_nesting_lock_priority() == spec_some(ceiling)
    &&& rank(thread.spec_priority()) >= rank(ceiling)
    &&& thread.spec_ceiling_locks() == old_thread.spec_ceiling_locks()
    &&& thread.spec_inherited_priority() == old_thread.spec_inherited_priority()
    &&& thread.spec_inheritance_locks() == old_thread.spec_inheritance_locks()
    &&& thread.spec_base_priority() == old_thread.spec_base_priority()
}

/// The context a nesting ceiling lock is taken from: the core's current
/// thread, or an interrupt handler that has interrupted it.
pub enum ExecutionContext {
    Thread,
    Interrupt(RawInterruptHandler),
}

/// Whether an optional nesting-lock priority is absent or at most `ceiling`.
pub open spec fn nesting_at_most(nesting: PriorityOpt, ceiling: Priority) -> bool {
    spec_priority(nesting) matches Some(p) ==> rank(p) <= rank(ceiling)
}

/// Whether the context is well formed: a handler keeps its scoped locks in
/// order.
pub open spec fn context_wf(ctx: ExecutionContext) -> bool {
    match ctx {
        ExecutionContext::Thread => true,
        ExecutionContext::Interrupt(h) => h.wf(),
    }
}

/// The priority the caller in context `ctx` runs at.
pub open spec fn context_priority(ctx: ExecutionContext, thread: RawThread) -> Priority {
    match ctx {
        ExecutionContext::Thread => thread.spec_priority(),
        ExecutionContext::Interrupt(h) => h.spec_priority(),
    }
}

/// The nesting-lock priority of the caller in context `ctx`.
pub open spec fn context_nesting_lock_priority(ctx: ExecutionContext, thread: RawThread) -> PriorityOpt {
    match ctx {
        ExecutionContext::Thread => thread.spec_nesting_lock_priority(),
        ExecutionContext::Interrupt(h) => h.spec_nesting_lock_priority(),
    }
}

/// Whether the caller in context `ctx` does not run above `ceiling`.
pub open spec fn context_may_take_ceiling(ctx: ExecutionContext, thread: RawThread, ceiling: Priority) -> bool {
    rank(context_priority(ctx, thread)) <= rank(ceiling)
}

/// Whether taking a nesting ceiling lock of ceiling `ceiling` is no fault:
/// a thread caller is not the idle thread, and holds no inheritance lock
/// unless it runs above the ceiling (and so is refused first).
pub open spec fn nesting_lock_allowed(ctx: ExecutionContext, thread: RawThread, ceiling: Priority) -> bool {
    ctx is Thread ==> thread.spec_thread_id() != IDLE_THREAD_ID
        && (thread.spec_inheritance_locks().len() == 0 || !may_take_ceiling(thread, ceiling))
}

/// Whether `h` is the handler `old` with the nesting-lock priority `nesting`
/// and all else as it was.
pub open spec fn handler_with_nesting(old: RawInterruptHandler, h: RawInterruptHandler, nesting: PriorityOpt) -> bool {
    &&& h.wf() == old.wf()
    &&& h.spec_nesting_lock_priority() == nesting
    &&& h.spec_ceiling_locks() == old.spec_ceiling_locks()
    &&& h.spec_base_priority() == old.spec_base_priority()
    &&& h.spec_interrupt_id() == old.spec_interrupt_id()
}

/// What taking a nesting ceiling lock does to the caller: a thread as
/// [`nesting_taken`] says; a handler gets the ceiling as its nesting-lock
/// priority, the interrupted thread being left as it was.
pub open spec fn nesting_taken_in(
    old_ctx: ExecutionContext,
    ctx: ExecutionContext,
    old_thread: RawThread,
    thread: RawThread,
    ceiling: Priority,
) -> bool {
    match (old_ctx, ctx) {
        (ExecutionContext::Thread, ExecutionContext::Thread) => nesting_taken(old_thread, thread, ceiling),
        (ExecutionContext::Interrupt(oh), ExecutionContext::Interrupt(h)) => thread == old_thread
            && handler_with_nesting(oh, h, spec_some(ceiling)),
        _ => false,
    }
}

/// What releasing a nesting ceiling lock does to a thread: its nesting-lock
/// priority becomes `saved`, and its priority is recomputed from it.
pub open spec fn nesting_restored(old_thread: RawThread, thread: RawThread, saved: PriorityOpt) -> bool {
    &&& thread.spec_nesting_lock_priority() == saved
    &&& thread.spec_ceiling_locks() == old_thread.spec_ceiling_locks()
    &&& thread.spec_inherited_priority() == old_thread.spec_inherited_priority()
    &&& thread.spec_inheritance_locks() == old_thread.spec_inheritance_locks()
    &&& thread.spec_base_priority() == old_thread.spec_base_priority()
    &&& thread.spec_thread_id() == old_thread.spec_thread_id()
    &&& thread.spec_priority() == spec_effective_priority(
        old_thread.spec_base_priority(),
        spec_lock_priority(saved, old_thread.spec_ceiling_locks()),
        old_thread.spec_inherited_priority(),
    )
}

/// What running a closure under a nesting ceiling lock leaves of the caller:
/// a thread caller well formed, at the same priority, nesting-lock priority
/// and held ceiling locks; a handler as it was, and the thread it
/// interrupted untouched.
pub open spec fn nesting_scope_restored(
    old_ctx: ExecutionContext,
    ctx: ExecutionContext,
    old_thread: RawThread,
    thread: RawThread,
) -> bool {
    &&& thread.wf()
    &&& match (old_ctx, ctx) {
        (ExecutionContext::Thread, ExecutionContext::Thread) => thread.spec_priority() == old_thread.spec_priority()
            && thread.spec_nesting_lock_priority() == old_thread.spec_nesting_lock_priority()
            && thread.spec_ceiling_locks() == old_thread.spec_ceiling_locks(),
        (ExecutionContext::Interrupt(oh), ExecutionContext::Interrupt(h)) => thread == old_thread
            && handler_with_nesting(oh, h, oh.spec_nesting_lock_priority()),
        _ => false,
    }
}

/// A ceiling lock, for use by one core.
pub struct RawCeilingLock {
    ceiling_priority: Priority,
    core: CoreId,
    lock_id: u32,
    owner: Option<ContextId>,
}

/// Held while a scoped ceiling lock is taken; give it back to release.
pub struct RawCeilingLockGuard {
    seal: (),
}

impl RawCeilingLock {
    /// The context holding the lock as a scoped lock, if any.
    pub closed spec fn spec_owner(&self) -> Option<ContextId> {
        self.owner
    }

    pub closed spec fn spec_ceiling_priority(&self) -> Priority {
        self.ceiling_priority
    }

    pub closed spec fn spec_core(&self) -> CoreId {
        self.core
    }

    pub closed spec fn spec_lock_id(&self) -> u32 {
        self.lock_id
    }

    /// The context holding the lock as a scoped lock, if any.
    pub fn owner(&self) -> (r: Option<ContextId>)
        ensures
            r == self.spec_owner(),
    {
        self.owner
    }

    pub fn new(ceiling_priority: Priority, core: CoreId, lock_id: u32) -> (r: RawCeilingLock)
        ensures
            r.spec_ceiling_priority() == ceiling_priority,
            r.spec_core() == core,
            r.spec_lock_id() == lock_id,
            r.spec_owner() is None,
    {
        RawCeilingLock { ceiling_priority, core, lock_id, owner: None }
    }

    /// Take the lock as a scoped lock for `thread`: set the core's ceiling,
    /// record the thread as owner and the lock among the thread's held locks.
    /// The idle thread taking it, a thread running above the ceiling, a
    /// thread holding an inheritance lock, and taking a lock already owned
    /// are faults, which `requires` leaves out.
    fn acquire_scoped_lock_in_thread(&mut self, thread: &mut RawThread, sched: &mut CeilingState)
        requires
            old(thread).wf(),
            old(thread).spec_thread_id() != IDLE_THREAD_ID,
            may_take_ceiling(*old(thread), old(self).spec_ceiling_priority()),
            old(thread).spec_inheritance_locks().len() == 0,
            old(self).spec_owner() is None,
        ensures
            final(thread).wf(),
            final(sched).spec_ceiling() == spec_some(old(self).spec_ceiling_priority()),
            final(self).spec_owner() == Some(ContextId::Thread(old(thread).spec_thread_id())),
            final(self).spec_ceiling_priority() == old(self).spec_ceiling_priority(),
            final(self).spec_core() == old(self).spec_core(),
            final(self).spec_lock_id() == old(self).spec_lock_id(),
            final(thread).spec_ceiling_locks() == old(thread).spec_ceiling_locks().insert(
                ceiling_position(old(thread).spec_ceiling_locks(), old(self).spec_ceiling_priority()),
                CeilingLockEntry { lock_id: old(self).spec_lock_id(), ceiling: old(self).spec_ceiling_priority() },
            ),
            rank(final(thread).spec_priority()) >= rank(old(self).spec_ceiling_priority()),
            final(thread).spec_thread_id() == old(thread).spec_thread_id(),
            final(thread).spec_nesting_lock_priority() == old(thread).spec_nesting_lock_priority(),
            final(thread).spec_inherited_priority() == old(thread).spec_inherited_priority(),
            final(thread).spec_base_priority() == old(thread).spec_base_priority(),
    {
        sched.set_ceiling(PriorityOpt::some(self.ceiling_priority));
        self.owner = Some(ContextId::Thread(thread.thread_id()));
        thread.ceiling_lock_acquired(CeilingLockEntry { lock_id: self.lock_id, ceiling: self.ceiling_priority });
    }

    /// Release the lock held as a scoped lock by `thread`: drop it from the
    /// thread's held locks, clear the owner and lower the core's ceiling to
    /// the thread's new priority. Releasing a lock owned by another thread is
    /// a fault, which `requires` leaves out; releasing a free lock does
    /// nothing.
    fn release_scoped_lock_in_thread(&mut self, thread: &mut RawThread, sched: &mut CeilingState)
        requires
            old(thread).wf(),
            old(self).spec_owner() is None || old(self).spec_owner() == Some(ContextId::Thread(old(thread).spec_thread_id())),
        ensures
            final(thread).wf(),
            final(self).spec_owner() is None,
            final(self).spec_ceiling_priority() == old(self).spec_ceiling_priority(),
            final(self).spec_core() == old(self).spec_core(),
            final(self).spec_lock_id() == old(self).spec_lock_id(),
            old(self).spec_owner() is None ==> *final(thread) == *old(thread) && *final(sched) == *old(sched),
            old(self).spec_owner() is Some ==> final(sched).spec_ceiling() == spec_some(final(thread).spec_priority())
                && final(thread).spec_ceiling_locks() == without_lock(old(thread).spec_ceiling_locks(), old(self).spec_lock_id()),
            final(thread).spec_thread_id() == old(thread).spec_thread_id(),
            final(thread).spec_nesting_lock_priority() == old(thread).spec_nesting_lock_priority(),
            final(thread).spec_inherited_priority() == old(thread).spec_inherited_priority(),
            final(thread).spec_base_priority() == old(thread).spec_base_priority(),
    {
        if self.owner.is_none() {
            return;
        }
        thread.ceiling_lock_released(self.lock_id);
        self.owner = None;
        let new_priority = thread.priority();
        sched.set_ceiling(PriorityOpt::some(new_priority));
    }

    /// Take the lock as a scoped lock for the interrupt handler `handler`:
    /// set the core's ceiling to the lock's ceiling, record the handler as
    /// owner and the lock among the handler's held scoped locks, after every
    /// held lock of a strictly higher ceiling; the handler's priority is
    /// recomputed from them. A handler running above the ceiling, and taking
    /// a lock already owned (by itself or by another context), are faults,
    /// which `requires` leaves out.
    pub fn acquire_scoped_lock_in_interrupt(&mut self, handler: &mut RawInterruptHandler, sched: &mut CeilingState)
        requires
            old(handler).wf(),
            rank(old(handler).spec_priority()) <= rank(old(self).spec_ceiling_priority()),
            old(self).spec_owner() is None,
        ensures
            final(handler).wf(),
            final(sched).spec_ceiling() == spec_some(old(self).spec_ceiling_priority()),
            final(self).spec_owner() == Some(ContextId::Interrupt(old(handler).spec_interrupt_id())),
            final(handler).spec_ceiling_locks() == old(handler).spec_ceiling_locks().insert(
                ceiling_position(old(handler).spec_ceiling_locks(), old(self).spec_ceiling_priority()),
                CeilingLockEntry { lock_id: old(self).spec_lock_id(), ceiling: old(self).spec_ceiling_priority() },
            ),
            final(handler).spec_interrupt_id() == old(handler).spec_interrupt_id(),
            final(handler).spec_base_priority() == old(handler).spec_base_priority(),
            final(handler).spec_nesting_lock_priority() == old(handler).spec_nesting_lock_priority(),
            final(self).spec_ceiling_priority() == old(self).spec_ceiling_priority(),
            final(self).spec_core() == old(self).spec_core(),
            final(self).spec_lock_id() == old(self).spec_lock_id(),
    {
        sched.set_ceiling(PriorityOpt::some(self.ceiling_priority));
        self.owner = Some(ContextId::Interrupt(handler.interrupt_id()));
        handler.ceiling_lock_acquired(CeilingLockEntry { lock_id: self.lock_id, ceiling: self.ceiling_priority });
    }

    /// Release the lock held as a scoped lock by the interrupt handler
    /// `handler`: drop it from the handler's held scoped locks, clear the
    /// owner and lower the core's ceiling to the handler's priority as
    /// recomputed. Releasing a free lock does nothing; releasing a lock owned
    /// by another context is a fault, which `requires` leaves out.
    pub fn release_scoped_lock_in_interrupt(&mut self, handler: &mut RawInterruptHandler, sched: &mut CeilingState)
        requires
            old(handler).wf(),
            old(self).spec_owner() is None || old(self).spec_owner() == Some(
                ContextId::Interrupt(old(handler).spec_interrupt_id()),
            ),
        ensures
            final(handler).wf(),
            final(self).spec_owner() is None,
            final(self).spec_ceiling_priority() == old(self).spec_ceiling_priority(),
            final(self).spec_core() == old(self).spec_core(),
            final(self).spec_lock_id() == old(self).spec_lock_id(),
            old(self).spec_owner() is None ==> *final(handler) == *old(handler) && *final(sched) == *old(sched),
            old(self).spec_owner() is Some ==> final(handler).spec_ceiling_locks() == without_lock(
                old(handler).spec_ceiling_locks(),
                old(self).spec_lock_id(),
            ) && final(sched).spec_ceiling() == spec_some(final(handler).spec_priority()),
            final(handler).spec_interrupt_id() == old(handler).spec_interrupt_id(),
            final(handler).spec_base_priority() == old(handler).spec_base_priority(),
            final(handler).spec_nesting_lock_priority() == old(handler).spec_nesting_lock_priority(),
    {
        if self.owner.is_none() {
            return;
        }
        handler.ceiling_lock_released(self.lock_id);
        self.owner = None;
        let new_priority = handler.priority();
        sched.set_ceiling(PriorityOpt::some(new_priority));
    }

    /// Take the lock as a scoped lock for `thread`.
    pub fn lock(&mut self, thread: &mut RawThread, sched: &mut CeilingState) -> (r: RawCeilingLockGuard)
        requires
            old(thread).wf(),
            old(thread).spec_thread_id() != IDLE_THREAD_ID,
            may_take_ceiling(*old(thread), old(self).spec_ceiling_priority()),
            old(thread).spec_inheritance_locks().len() == 0,
            old(self).spec_owner() is None,
        ensures
            final(thread).wf(),
            final(sched).spec_ceiling() == spec_some(old(self).spec_ceiling_priority()),
            final(self).spec_owner() == Some(ContextId::Thread(old(thread).spec_thread_id())),
            rank(final(thread).spec_priority()) >= rank(old(self).spec_ceiling_priority()),
            final(thread).spec_thread_id() == old(thread).spec_thread_id(),
            final(thread).spec_ceiling_locks() == old(thread).spec_ceiling_locks().insert(
                ceiling_position(old(thread).spec_ceiling_locks(), old(self).spec_ceiling_priority()),
                CeilingLockEntry { lock_id: old(self).spec_lock_id(), ceiling: old(self).spec_ceiling_priority() },
            ),
            final(thread).spec_nesting_lock_priority() == old(thread).spec_nesting_lock_priority(),
            final(thread).spec_inherited_priority() == old(thread).spec_inherited_priority(),
            final(thread).spec_base_priority() == old(thread).spec_base_priority(),
            final(self).spec_ceiling_priority() == old(self).spec_ceiling_priority(),
            final(self).spec_lock_id() == old(self).spec_lock_id(),
            final(self).spec_core() == old(self).spec_core(),
    {
        self.acquire_scoped_lock_in_thread(thread, sched);
        RawCeilingLockGuard { seal: () }
    }

    /// Release the scoped hold that `guard` stands for.
    pub fn unlock(&mut self, thread: &mut RawThread, sched: &mut CeilingState, guard: RawCeilingLockGuard)
        requires
            old(thread).wf(),
            old(self).spec_owner() is None || old(self).spec_owner() == Some(ContextId::Thread(old(thread).spec_thread_id())),
        ensures
            final(thread).wf(),
            final(self).spec_owner() is None,
            old(self).spec_owner() is Some ==> final(sched).spec_ceiling() == spec_some(final(thread).spec_priority())
                && final(thread).spec_ceiling_locks() == without_lock(old(thread).spec_ceiling_locks(), old(self).spec_lock_id()),
            old(self).spec_owner() is None ==> *final(thread) == *old(thread) && *final(sched) == *old(sched),
            final(thread).spec_nesting_lock_priority() == old(thread).spec_nesting_lock_priority(),
            final(thread).spec_inherited_priority() == old(thread).spec_inherited_priority(),
            final(thread).spec_base_priority() == old(thread).spec_base_priority(),
            final(self).spec_ceiling_priority() == old(self).spec_ceiling_priority(),
            final(self).spec_core() == old(self).spec_core(),
            final(self).spec_lock_id() == old(self).spec_lock_id(),
    {
        self.release_scoped_lock_in_thread(thread, sched);
    }

    /// Take a nesting ceiling lock of ceiling `ceiling` from the context
    /// `ctx`; see [`try_acquire_nesting_lock`](Self::try_acquire_nesting_lock).
    /// A caller running above the ceiling is a fault, which `requires` leaves
    /// out.
    pub fn acquire_nesting_lock(
        ceiling: Priority,
        ctx: &mut ExecutionContext,
        thread: &mut RawThread,
        sched: &mut CeilingState,
    ) -> (r: CeilingLockRestoreState)
        requires
            old(thread).wf(),
            nesting_lock_allowed(*old(ctx), *old(thread), ceiling),
            context_may_take_ceiling(*old(ctx), *old(thread), ceiling),
        ensures
            nesting_taken_in(*old(ctx), *final(ctx), *old(thread), *final(thread), ceiling),
            final(sched).spec_ceiling() == spec_some(ceiling),
            r == (CeilingLockRestoreState {
                saved_priority: context_nesting_lock_priority(*old(ctx), *old(thread)),
                saved_ceiling: old(sched).spec_ceiling(),
            }),
    {
        match Self::try_acquire_nesting_lock(ceiling, ctx, thread, sched) {
            Ok(s) => s,
            Err(_) => {
                proof {
                    assert(false);
                }
                CeilingLockRestoreState { saved_priority: PriorityOpt::none(), saved_ceiling: PriorityOpt::none() }
            },
        }
    }

    /// Try to take a nesting ceiling lock of ceiling `ceiling` from the
    /// context `ctx` (a thread, or an interrupt handler that interrupted
    /// `thread`): fails with `Err(())` and changes nothing if the caller runs
    /// above the ceiling; otherwise sets the core's ceiling, raises the
    /// caller's nesting-lock priority to the ceiling and returns what the
    /// release restores. The idle thread taking it, and a thread holding an
    /// inheritance lock that passes the priority check, are faults, which
    /// `requires` leaves out.
    pub fn try_acquire_nesting_lock(
        ceiling: Priority,
        ctx: &mut ExecutionContext,
        thread: &mut RawThread,
        sched: &mut CeilingState,
    ) -> (r: Result<CeilingLockRestoreState, ()>)
        requires
            old(thread).wf(),
            nesting_lock_allowed(*old(ctx), *old(thread), ceiling),
        ensures
            r is Err <==> !context_may_take_ceiling(*old(ctx), *old(thread), ceiling),
            r is Err ==> *final(ctx) == *old(ctx) && *final(thread) == *old(thread) && *final(sched) == *old(sched),
            r is Ok ==> nesting_taken_in(*old(ctx), *final(ctx), *old(thread), *final(thread), ceiling)
                && final(sched).spec_ceiling() == spec_some(ceiling)
                && r == Ok::<CeilingLockRestoreState, ()>(CeilingLockRestoreState {
                    saved_priority: context_nesting_lock_priority(*old(ctx), *old(thread)),
                    saved_ceiling: old(sched).spec_ceiling(),
                }),
    {
        match ctx {
            ExecutionContext::Interrupt(h) => {
                if h.priority() > ceiling {
                    return Err(());
                }
                proof {
                    crate::interrupt::lemma_handler_priority_at_least_nesting(*h);
                }
                let saved_ceiling = sched.get_ceiling();
                sched.set_ceiling(PriorityOpt::some(ceiling));
                let saved_priority = h.raise_nesting_lock_priority(ceiling);
                Ok(CeilingLockRestoreState { saved_priority, saved_ceiling })
            },
            ExecutionContext::Thread => {
                if thread.priority() > ceiling {
                    return Err(());
                }
                proof {
                    lemma_thread_priority_bounds(*thread);
                }
                let saved_ceiling = sched.get_ceiling();
                sched.set_ceiling(PriorityOpt::some(ceiling));
                let saved_priority = thread.raise_nesting_lock_priority(ceiling);
                Ok(CeilingLockRestoreState { saved_priority, saved_ceiling })
            },
        }
    }

    /// Take a nesting ceiling lock from kernel code. A ceiling at interrupt
    /// priorities is taken as by
    /// [`try_acquire_nesting_lock`](Self::try_acquire_nesting_lock); a ceiling
    /// at thread priorities is taken in either context without the priority
    /// check, the caller's nesting-lock priority becoming the ceiling. A
    /// nesting-lock priority already above such a ceiling is a fault, which
    /// `requires` leaves out.
    pub fn kernel_try_acquire_nesting_lock(
        ceiling: Priority,
        ctx: &mut ExecutionContext,
        thread: &mut RawThread,
        sched: &mut CeilingState,
    ) -> (r: Result<CeilingLockRestoreState, ()>)
        requires
            old(thread).wf(),
            ceiling is Thread ==> nesting_at_most(context_nesting_lock_priority(*old(ctx), *old(thread)), ceiling),
            ceiling is Interrupt ==> nesting_lock_allowed(*old(ctx), *old(thread), ceiling),
        ensures
            ceiling is Interrupt ==> (r is Err <==> !context_may_take_ceiling(*old(ctx), *old(thread), ceiling)),
            ceiling is Thread ==> r is Ok,
            r is Err ==> *final(ctx) == *old(ctx) && *final(thread) == *old(thread) && *final(sched) == *old(sched),
            r is Ok ==> nesting_taken_in(*old(ctx), *final(ctx), *old(thread), *final(thread), ceiling)
                && final(sched).spec_ceiling() == spec_some(ceiling)
                && r == Ok::<CeilingLockRestoreState, ()>(CeilingLockRestoreState {
                    saved_priority: context_nesting_lock_priority(*old(ctx), *old(thread)),
                    saved_ceiling: old(sched).spec_ceiling(),
                }),
    {
        if ceiling.is_interrupt() {
            return Self::try_acquire_nesting_lock(ceiling, ctx, thread, sched);
        }
        let saved_ceiling = sched.get_ceiling();
        sched.set_ceiling(PriorityOpt::some(ceiling));
        match ctx {
            ExecutionContext::Interrupt(h) => {
                let saved_priority = h.raise_nesting_lock_priority(ceiling);
                Ok(CeilingLockRestoreState { saved_priority, saved_ceiling })
            },
            ExecutionContext::Thread => {
                let saved_priority = thread.raise_nesting_lock_priority(ceiling);
                Ok(CeilingLockRestoreState { saved_priority, saved_ceiling })
            },
        }
    }

    /// Release a nesting ceiling lock taken from the context `ctx`: restore
    /// the caller's nesting-lock priority and the core's ceiling saved when
    /// it was taken.
    pub fn release_nesting_lock(
        restore_state: CeilingLockRestoreState,
        ctx: &mut ExecutionContext,
        thread: &mut RawThread,
        sched: &mut CeilingState,
    )
        requires
            old(thread).wf(),
        ensures
            final(thread).wf(),
            final(sched).spec_ceiling() == restore_state.saved_ceiling,
            match (*old(ctx), *final(ctx)) {
                (ExecutionContext::Thread, ExecutionContext::Thread) => nesting_restored(
                    *old(thread),
                    *final(thread),
                    restore_state.saved_priority,
                ),
                (ExecutionContext::Interrupt(oh), ExecutionContext::Interrupt(h)) => *final(thread) == *old(thread)
                    && handler_with_nesting(oh, h, restore_state.saved_priority),
                _ => false,
            },
    {
        match ctx {
            ExecutionContext::Interrupt(h) => {
                h.set_nesting_lock_priority(restore_state.saved_priority);
            },
            ExecutionContext::Thread => {
                thread.set_nesting_lock_priority(restore_state.saved_priority);
            },
        }
        sched.set_ceiling(restore_state.saved_ceiling);
    }
}

/// Taking a nesting ceiling lock and releasing it with the state it returned
/// gives the thread back its priority and nesting-lock priority and the core
/// back its ceiling.
pub proof fn lemma_nesting_ceiling_restores(
    before: RawThread,
    after: RawThread,
    sched_before: CeilingState,
    rs: CeilingLockRestoreState,
)
    requires
        before.wf(),
        after.wf(),
        rs.saved_priority == before.spec_nesting_lock_priority(),
        rs.saved_ceiling == sched_before.spec_ceiling(),
        after.spec_nesting_lock_priority() == rs.saved_priority,
        after.spec_ceiling_locks() == before.spec_ceiling_locks(),
        after.spec_inherited_priority() == before.spec_inherited_priority(),
        after.spec_base_priority() == before.spec_base_priority(),
    ensures
        after.spec_priority() == before.spec_priority(),
        after.spec_nesting_lock_priority() == before.spec_nesting_lock_priority(),
{
    crate::thread::lemma_wf_priority(before);
    crate::thread::lemma_wf_priority(after);
}

/// Witness that a ceiling lock is held.
#[derive(Clone, Copy, Debug)]
pub struct CeilingLockKey {
    seal: (),
}

impl CeilingLockKey {
    /// The key value (keys carry no data).
    pub closed spec fn spec_key() -> CeilingLockKey {
        CeilingLockKey { seal: () }
    }

    pub fn new() -> (r: CeilingLockKey)
        ensures
            r == Self::spec_key(),
    {
        CeilingLockKey { seal: () }
    }
}

/// Held while a `CeilingLock` is taken as a scoped lock.
pub struct CeilingLockGuard {
    raw: RawCeilingLockGuard,
}

/// A ceiling lock with its ceiling priority.
pub struct CeilingLock {
    raw: RawCeilingLock,
}

impl CeilingLock {
    pub closed spec fn spec_ceiling(&self) -> Priority {
        self.raw.ceiling_priority
    }

    pub closed spec fn spec_core(&self) -> CoreId {
        self.raw.core
    }

    pub closed spec fn spec_owner(&self) -> Option<ContextId> {
        self.raw.spec_owner()
    }

    pub closed spec fn spec_lock_id(&self) -> u32 {
        self.raw.lock_id
    }

    pub fn new(ceiling: Priority, core: CoreId, lock_id: u32) -> (r: CeilingLock)
        ensures
            r.spec_ceiling() == ceiling,
            r.spec_core() == core,
            r.spec_lock_id() == lock_id,
            r.spec_owner() is None,
    {
        CeilingLock { raw: RawCeilingLock::new(ceiling, core, lock_id) }
    }

    pub fn ceiling(&self) -> (r: Priority)
        ensures
            r == self.spec_ceiling(),
    {
        self.raw.ceiling_priority
    }

    /// Take the lock as a scoped lock for `thread` running on core `current`,
    /// which must be the lock's core.
    pub fn lock(&mut self, thread: &mut RawThread, sched: &mut CeilingState, current: CoreId) -> (r: CeilingLockGuard)
        requires
            current == old(self).spec_core(),
            old(thread).wf(),
            old(thread).spec_thread_id() != IDLE_THREAD_ID,
            may_take_ceiling(*old(thread), old(self).spec_ceiling()),
            old(thread).spec_inheritance_locks().len() == 0,
            old(self).spec_owner() is None,
        ensures
            final(thread).wf(),
            final(sched).spec_ceiling() == spec_some(old(self).spec_ceiling()),
            final(self).spec_owner() == Some(ContextId::Thread(old(thread).spec_thread_id())),
            rank(final(thread).spec_priority()) >= rank(old(self).spec_ceiling()),
            final(thread).spec_ceiling_locks() == old(thread).spec_ceiling_locks().insert(
                ceiling_position(old(thread).spec_ceiling_locks(), old(self).spec_ceiling()),
                CeilingLockEntry { lock_id: old(self).spec_lock_id(), ceiling: old(self).spec_ceiling() },
            ),
            final(thread).spec_nesting_lock_priority() == old(thread).spec_nesting_lock_priority(),
            final(thread).spec_inherited_priority() == old(thread).spec_inherited_priority(),
            final(thread).spec_base_priority() == old(thread).spec_base_priority(),
            final(self).spec_ceiling() == old(self).spec_ceiling(),
            final(self).spec_core() == old(self).spec_core(),
            final(self).spec_lock_id() == old(self).spec_lock_id(),
    {
        self.lock_unchecked(thread, sched)
    }

    /// Take the lock as a scoped lock, without checking the core.
    pub fn lock_unchecked(&mut self, thread: &mut RawThread, sched: &mut CeilingState) -> (r: CeilingLockGuard)
        requires
            old(thread).wf(),
            old(thread).spec_thread_id() != IDLE_THREAD_ID,
            may_take_ceiling(*old(thread), old(self).spec_ceiling()),
            old(thread).spec_inheritance_locks().len() == 0,
            old(self).spec_owner() is None,
        ensures
            final(thread).wf(),
            final(sched).spec_ceiling() == spec_some(old(self).spec_ceiling()),
            final(self).spec_owner() == Some(ContextId::Thread(old(thread).spec_thread_id())),
            rank(final(thread).spec_priority()) >= rank(old(self).spec_ceiling()),
            final(thread).spec_ceiling_locks() == old(thread).spec_ceiling_locks().insert(
                ceiling_position(old(thread).spec_ceiling_locks(), old(self).spec_ceiling()),
                CeilingLockEntry { lock_id: old(self).spec_lock_id(), ceiling: old(self).spec_ceiling() },
            ),
            final(thread).spec_nesting_lock_priority() == old(thread).spec_nesting_lock_priority(),
            final(thread).spec_inherited_priority() == old(thread).spec_inherited_priority(),
            final(thread).spec_base_priority() == old(thread).spec_base_priority(),
            final(self).spec_ceiling() == old(self).spec_ceiling(),
            final(self).spec_core() == old(self).spec_core(),
            final(self).spec_lock_id() == old(self).spec_lock_id(),
    {
        let raw = self.raw.lock(thread, sched);
        CeilingLockGuard { raw }
    }

    /// Release the scoped hold of `thread`.
    pub fn unlock(&mut self, thread: &mut RawThread, sched: &mut CeilingState, guard: CeilingLockGuard)
        requires
            old(thread).wf(),
            old(self).spec_owner() is None || old(self).spec_owner() == Some(ContextId::Thread(old(thread).spec_thread_id())),
        ensures
            final(thread).wf(),
            final(self).spec_owner() is None,
            old(self).spec_owner() is Some ==> final(sched).spec_ceiling() == spec_some(final(thread).spec_priority())
                && final(thread).spec_ceiling_locks() == without_lock(old(thread).spec_ceiling_locks(), old(self).spec_lock_id()),
            old(self).spec_owner() is None ==> *final(thread) == *old(thread) && *final(sched) == *old(sched),
            final(thread).spec_nesting_lock_priority() == old(thread).spec_nesting_lock_priority(),
            final(thread).spec_inherited_priority() == old(thread).spec_inherited_priority(),
            final(thread).spec_base_priority() == old(thread).spec_base_priority(),
            final(self).spec_ceiling() == old(self).spec_ceiling(),
            final(self).spec_core() == old(self).spec_core(),
            final(self).spec_lock_id() == old(self).spec_lock_id(),
    {
        self.raw.unlock(thread, sched, guard.raw)
    }

    /// Run `f` holding the lock as a nesting lock, taken from the context
    /// `ctx`, passing it the key. A caller running above the ceiling is a
    /// fault, which `requires` leaves out. Afterwards the caller's priority
    /// and the core's ceiling are as before.
    pub fn with<R, F: FnOnce(CeilingLockKey) -> R>(&self, ctx: &mut ExecutionContext, thread: &mut RawThread, sched: &mut CeilingState, f: F) -> (r: R)
        requires
            old(thread).wf(),
            nesting_lock_allowed(*old(ctx), *old(thread), self.spec_ceiling()),
            context_may_take_ceiling(*old(ctx), *old(thread), self.spec_ceiling()),
            f.requires((CeilingLockKey::spec_key(),)),
        ensures
            f.ensures((CeilingLockKey::spec_key(),), r),
            nesting_scope_restored(*old(ctx), *final(ctx), *old(thread), *final(thread)),
            final(sched).spec_ceiling() == old(sched).spec_ceiling(),
    {
        let restore_state = RawCeilingLock::acquire_nesting_lock(self.raw.ceiling_priority, ctx, thread, sched);
        let key = CeilingLockKey::new();
        let result = f(key);
        proof {
            lemma_wf_priority(*old(thread));
        }
        RawCeilingLock::release_nesting_lock(restore_state, ctx, thread, sched);
        result
    }

    /// Like [`with`](Self::with), but fails with `Err(WouldBlock)`, running
    /// nothing and changing nothing, if the caller runs above the ceiling.
    pub fn try_with<R, F: FnOnce(CeilingLockKey) -> R>(&self, ctx: &mut ExecutionContext, thread: &mut RawThread, sched: &mut CeilingState, f: F) -> (r: Result<R, TryLockError>)
        requires
            old(thread).wf(),
            nesting_lock_allowed(*old(ctx), *old(thread), self.spec_ceiling()),
            f.requires((CeilingLockKey::spec_key(),)),
        ensures
            r is Err <==> !context_may_take_ceiling(*old(ctx), *old(thread), self.spec_ceiling()),
            r is Err ==> *final(thread) == *old(thread) && *final(sched) == *old(sched),
            r matches Ok(v) ==> f.ensures((CeilingLockKey::spec_key(),), v),
            nesting_scope_restored(*old(ctx), *final(ctx), *old(thread), *final(thread)),
            final(sched).spec_ceiling() == old(sched).spec_ceiling(),
    {
        let restore_state = match RawCeilingLock::try_acquire_nesting_lock(self.raw.ceiling_priority, ctx, thread, sched) {
            Ok(s) => s,
            Err(_) => return Err(TryLockError::WouldBlock),
        };
        let key = CeilingLockKey::new();
        let result = f(key);
        proof {
            lemma_wf_priority(*old(thread));
        }
        RawCeilingLock::release_nesting_lock(restore_state, ctx, thread, sched);
        Ok(result)
    }

    /// Like [`try_with`](Self::try_with), from kernel code: a ceiling at
    /// thread priorities is taken without the priority check (see
    /// [`RawCeilingLock::kernel_try_acquire_nesting_lock`]).
    pub fn kernel_try_with<R, F: FnOnce(CeilingLockKey) -> R>(&self, ctx: &mut ExecutionContext, thread: &mut RawThread, sched: &mut CeilingState, f: F) -> (r: Result<R, TryLockError>)
        requires
            old(thread).wf(),
            self.spec_ceiling() is Thread ==> nesting_at_most(context_nesting_lock_priority(*old(ctx), *old(thread)), self.spec_ceiling()),
            self.spec_ceiling() is Interrupt ==> nesting_lock_allowed(*old(ctx), *old(thread), self.spec_ceiling()),
            f.requires((CeilingLockKey::spec_key(),)),
        ensures
            self.spec_ceiling() is Interrupt ==> (r is Err <==> !context_may_take_ceiling(*old(ctx), *old(thread), self.spec_ceiling())),
            self.spec_ceiling() is Thread ==> r is Ok,
            r is Err ==> *final(thread) == *old(thread) && *final(sched) == *old(sched),
            r matches Ok(v) ==> f.ensures((CeilingLockKey::spec_key(),), v),
            nesting_scope_restored(*old(ctx), *final(ctx), *old(thread), *final(thread)),
            final(sched).spec_ceiling() == old(sched).spec_ceiling(),
    {
        let restore_state = match RawCeilingLock::kernel_try_acquire_nesting_lock(self.raw.ceiling_priority, ctx, thread, sched) {
            Ok(s) => s,
            Err(_) => return Err(TryLockError::WouldBlock),
        };
        let key = CeilingLockKey::new();
        let result = f(key);
        proof {
            lemma_wf_priority(*old(thread));
        }
        RawCeilingLock::release_nesting_lock(restore_state, ctx, thread, sched);
        Ok(result)
    }
}

/// Witness that a ceiling lock of core `CORE` is held.
#[derive(Clone, Copy, Debug)]
pub struct CoreCeilingLockKey<const CORE: usize> {
    seal: (),
}

impl<const CORE: usize> CoreCeilingLockKey<CORE> {
    /// The key value (keys carry no data).
    pub closed spec fn spec_key() -> CoreCeilingLockKey<CORE> {
        CoreCeilingLockKey { seal: () }
    }

    pub fn new() -> (r: CoreCeilingLockKey<CORE>)
        ensures
            r == Self::spec_key(),
    {
        CoreCeilingLockKey { seal: () }
    }
}

/// Held while a `CoreCeilingLock` is taken as a scoped lock.
pub struct CoreCeilingLockGuard<const CORE: usize> {
    inner: CeilingLockGuard,
}

/// A ceiling lock whose core is part of its type.
pub struct CoreCeilingLock<const CORE: usize> {
    inner: CeilingLock,
}

impl<const CORE: usize> CoreCeilingLock<CORE> {
    pub closed spec fn spec_ceiling(&self) -> Priority {
        self.inner.spec_ceiling()
    }

    pub closed spec fn spec_owner(&self) -> Option<ContextId> {
        self.inner.spec_owner()
    }

    pub closed spec fn spec_lock_id(&self) -> u32 {
        self.inner.spec_lock_id()
    }

    pub fn new(ceiling: Priority, lock_id: u32) -> (r: CoreCeilingLock<CORE>)
        ensures
            r.spec_ceiling() == ceiling,
            r.spec_lock_id() == lock_id,
            r.spec_owner() is None,
    {
        CoreCeilingLock { inner: CeilingLock::new(ceiling, CORE, lock_id) }
    }

    /// Take the lock as a scoped lock for `thread` on core `CORE`.
    pub fn lock(&mut self, thread: &mut RawThread, sched: &mut CeilingState, current: CoreId) -> (r: CoreCeilingLockGuard<CORE>)
        requires
            current == CORE,
            old(thread).wf(),
            old(thread).spec_thread_id() != IDLE_THREAD_ID,
            may_take_ceiling(*old(thread), old(self).spec_ceiling()),
            old(thread).spec_inheritance_locks().len() == 0,
            old(self).spec_owner() is None,
        ensures
            final(thread).wf(),
            final(sched).spec_ceiling() == spec_some(old(self).spec_ceiling()),
            final(self).spec_owner() == Some(ContextId::Thread(old(thread).spec_thread_id())),
            rank(final(thread).spec_priority()) >= rank(old(self).spec_ceiling()),
            final(thread).spec_ceiling_locks() == old(thread).spec_ceiling_locks().insert(
                ceiling_position(old(thread).spec_ceiling_locks(), old(self).spec_ceiling()),
                CeilingLockEntry { lock_id: old(self).spec_lock_id(), ceiling: old(self).spec_ceiling() },
            ),
            final(thread).spec_nesting_lock_priority() == old(thread).spec_nesting_lock_priority(),
            final(thread).spec_inherited_priority() == old(thread).spec_inherited_priority(),
            final(thread).spec_base_priority() == old(thread).spec_base_priority(),
            final(self).spec_ceiling() == old(self).spec_ceiling(),
            final(self).spec_lock_id() == old(self).spec_lock_id(),
    {
        let inner = self.inner.lock_unchecked(thread, sched);
        CoreCeilingLockGuard { inner }
    }

    /// Release the scoped hold of `thread`.
    pub fn unlock(&mut self, thread: &mut RawThread, sched: &mut CeilingState, guard: CoreCeilingLockGuard<CORE>)
        requires
            old(thread).wf(),
            old(self).spec_owner() is None || old(self).spec_owner() == Some(ContextId::Thread(old(thread).spec_thread_id())),
        ensures
            final(thread).wf(),
            final(self).spec_owner() is None,
            old(self).spec_owner() is Some ==> final(sched).spec_ceiling() == spec_some(final(thread).spec_priority())
                && final(thread).spec_ceiling_locks() == without_lock(old(thread).spec_ceiling_locks(), old(self).spec_lock_id()),
            old(self).spec_owner() is None ==> *final(thread) == *old(thread) && *final(sched) == *old(sched),
            final(thread).spec_nesting_lock_priority() == old(thread).spec_nesting_lock_priority(),
            final(thread).spec_inherited_priority() == old(thread).spec_inherited_priority(),
            final(thread).spec_base_priority() == old(thread).spec_base_priority(),
    {
        self.inner.unlock(thread, sched, guard.inner)
    }

    /// Run `f` holding the lock as a nesting lock, on core `CORE`.
    pub fn with<R, F: FnOnce(CoreCeilingLockKey::<CORE>) -> R>(&self, ctx: &mut ExecutionContext, thread: &mut RawThread, sched: &mut CeilingState, current: CoreId, f: F) -> (r: R)
        requires
            current == CORE,
            old(thread).wf(),
            nesting_lock_allowed(*old(ctx), *old(thread), self.spec_ceiling()),
            context_may_take_ceiling(*old(ctx), *old(thread), self.spec_ceiling()),
            f.requires((CoreCeilingLockKey::<CORE>::spec_key(),)),
        ensures
            f.ensures((CoreCeilingLockKey::<CORE>::spec_key(),), r),
            nesting_scope_restored(*old(ctx), *final(ctx), *old(thread), *final(thread)),
            final(sched).spec_ceiling() == old(sched).spec_ceiling(),
    {
        let restore_state = RawCeilingLock::acquire_nesting_lock(self.inner.ceiling(), ctx, thread, sched);
        let key = CoreCeilingLockKey::<CORE>::new();
        let result = f(key);
        proof {
            lemma_wf_priority(*old(thread));
        }
        RawCeilingLock::release_nesting_lock(restore_state, ctx, thread, sched);
        result
    }

    /// Like [`with`](Self::with); fails with `Err(WouldBlock)` if the caller
    /// runs above the ceiling.
    pub fn try_with<R, F: FnOnce(CoreCeilingLockKey::<CORE>) -> R>(&self, ctx: &mut ExecutionContext, thread: &mut RawThread, sched: &mut CeilingState, current: CoreId, f: F) -> (r: Result<R, TryLockError>)
        requires
            current == CORE,
            old(thread).wf(),
            nesting_lock_allowed(*old(ctx), *old(thread), self.spec_ceiling()),
            f.requires((CoreCeilingLockKey::<CORE>::spec_key(),)),
        ensures
            r is Err <==> !context_may_take_ceiling(*old(ctx), *old(thread), self.spec_ceiling()),
            r is Err ==> *final(thread) == *old(thread) && *final(sched) == *old(sched),
            r matches Ok(v) ==> f.ensures((CoreCeilingLockKey::<CORE>::spec_key(),), v),
            nesting_scope_restored(*old(ctx), *final(ctx), *old(thread), *final(thread)),
            final(sched).spec_ceiling() == old(sched).spec_ceiling(),
    {
        let restore_state = match RawCeilingLock::try_acquire_nesting_lock(self.inner.ceiling(), ctx, thread, sched) {
            Ok(s) => s,
            Err(_) => return Err(TryLockError::WouldBlock),
        };
        let key = CoreCeilingLockKey::<CORE>::new();
        let result = f(key);
        proof {
            lemma_wf_priority(*old(thread));
        }
        RawCeilingLock::release_nesting_lock(restore_state, ctx, thread, sched);
        Ok(result)
    }

    /// Run `f` holding the lock as a nesting lock, given proof of running on
    /// core `CORE`.
    pub fn with_core<R, F: FnOnce(CoreCeilingLockKey::<CORE>) -> R>(&self, ctx: &mut ExecutionContext, thread: &mut RawThread, sched: &mut CeilingState, core: &CoreCeilingLockKey<CORE>, f: F) -> (r: R)
        requires
            old(thread).wf(),
            nesting_lock_allowed(*old(ctx), *old(thread), self.spec_ceiling()),
            context_may_take_ceiling(*old(ctx), *old(thread), self.spec_ceiling()),
            f.requires((CoreCeilingLockKey::<CORE>::spec_key(),)),
        ensures
            f.ensures((CoreCeilingLockKey::<CORE>::spec_key(),), r),
            nesting_scope_restored(*old(ctx), *final(ctx), *old(thread), *final(thread)),
            final(sched).spec_ceiling() == old(sched).spec_ceiling(),
    {
        let restore_state = RawCeilingLock::acquire_nesting_lock(self.inner.ceiling(), ctx, thread, sched);
        let key = CoreCeilingLockKey::<CORE>::new();
        let result = f(key);
        proof {
            lemma_wf_priority(*old(thread));
        }
        RawCeilingLock::release_nesting_lock(restore_state, ctx, thread, sched);
        result
    }

    /// Like [`with_core`](Self::with_core); fails with `Err(WouldBlock)` if
    /// the caller runs above the ceiling.
    pub fn try_with_core<R, F: FnOnce(CoreCeilingLockKey::<CORE>) -> R>(&self, ctx: &mut ExecutionContext, thread: &mut RawThread, sched: &mut CeilingState, core: &CoreCeilingLockKey<CORE>, f: F) -> (r: Result<R, TryLockError>)
        requires
            old(thread).wf(),
            nesting_lock_allowed(*old(ctx), *old(thread), self.spec_ceiling()),
            f.requires((CoreCeilingLockKey::<CORE>::spec_key(),)),
        ensures
            r is Err <==> !context_may_take_ceiling(*old(ctx), *old(thread), self.spec_ceiling()),
            r is Err ==> *final(thread) == *old(thread) && *final(sched) == *old(sched),
            r matches Ok(v) ==> f.ensures((CoreCeilingLockKey::<CORE>::spec_key(),), v),
            nesting_scope_restored(*old(ctx), *final(ctx), *old(thread), *final(thread)),
            final(sched).spec_ceiling() == old(sched).spec_ceiling(),
    {
        let restore_state = match RawCeilingLock::try_acquire_nesting_lock(self.inner.ceiling(), ctx, thread, sched) {
            Ok(s) => s,
            Err(_) => return Err(TryLockError::WouldBlock),
        };
        let key = CoreCeilingLockKey::<CORE>::new();
        let result = f(key);
        proof {
            lemma_wf_priority(*old(thread));
        }
        RawCeilingLock::release_nesting_lock(restore_state, ctx, thread, sched);
        Ok(result)
    }

    /// Like [`try_with_core`](Self::try_with_core), from kernel code; see
    /// [`CeilingLock::kernel_try_with`].
    pub fn kernel_try_with<R, F: FnOnce(CoreCeilingLockKey::<CORE>) -> R>(&self, ctx: &mut ExecutionContext, thread: &mut RawThread, sched: &mut CeilingState, f: F) -> (r: Result<R, TryLockError>)
        requires
            old(thread).wf(),
            self.spec_ceiling() is Thread ==> nesting_at_most(context_nesting_lock_priority(*old(ctx), *old(thread)), self.spec_ceiling()),
            self.spec_ceiling() is Interrupt ==> nesting_lock_allowed(*old(ctx), *old(thread), self.spec_ceiling()),
            f.requires((CoreCeilingLockKey::<CORE>::spec_key(),)),
        ensures
            self.spec_ceiling() is Interrupt ==> (r is Err <==> !context_may_take_ceiling(*old(ctx), *old(thread), self.spec_ceiling())),
            self.spec_ceiling() is Thread ==> r is Ok,
            r is Err ==> *final(thread) == *old(thread) && *final(sched) == *old(sched),
            r matches Ok(v) ==> f.ensures((CoreCeilingLockKey::<CORE>::spec_key(),), v),
            nesting_scope_restored(*old(ctx), *final(ctx), *old(thread), *final(thread)),
            final(sched).spec_ceiling() == old(sched).spec_ceiling(),
    {
        let restore_state = match RawCeilingLock::kernel_try_acquire_nesting_lock(self.inner.ceiling(), ctx, thread, sched) {
            Ok(s) => s,
            Err(_) => return Err(TryLockError::WouldBlock),
        };
        let key = CoreCeilingLockKey::<CORE>::new();
        let result = f(key);
        proof {
            lemma_wf_priority(*old(thread));
        }
        RawCeilingLock::release_nesting_lock(restore_state, ctx, thread, sched);
        Ok(result)
    }
}

} // verus!
