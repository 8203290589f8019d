use scars::lock::ceiling_lock::{
    CeilingLock, CeilingLockRestoreState, CeilingState, CoreCeilingLock, ExecutionContext,
    RawCeilingLock,
};
use scars::interrupt::RawInterruptHandler;
use scars::lock::inheritance_lock::{AtomicOwner, InheritanceLock};
use scars::lock::interrupt_lock::{
    acquire_interrupt_lock_inner, release_interrupt_lock_inner, CoreInterruptLock, InterruptLock,
    InterruptNesting,
};
use scars::lock::no_lock::NoLock;
use scars::lock::preempt_lock::{
    acquire_nesting_lock_inner, is_preempt_allowed, needs_service_call, release_nesting_lock_inner,
    try_acquire_nesting_lock_inner, PreemptLock, PreemptState,
};
use scars::lock::spinlock::SpinLock;
use scars::lock::{ContextId, TryLockError};
use scars::thread::RawThread;
use scars::{Priority, PriorityOpt};

#[test]
fn interrupt_lock_nesting_unmasks_only_at_the_outermost_release() {
    let mut n = InterruptNesting::new();
    assert!(n.interrupts_enabled());
    let s1 = acquire_interrupt_lock_inner(&mut n);
    let s2 = acquire_interrupt_lock_inner(&mut n);
    assert_eq!(n.depth(), 2);
    assert!(!n.interrupts_enabled());
    release_interrupt_lock_inner(&mut n, s2);
    assert!(!n.interrupts_enabled());
    release_interrupt_lock_inner(&mut n, s1);
    assert_eq!(n.depth(), 0);
    assert!(n.interrupts_enabled());
}

#[test]
fn interrupt_lock_with_restores_the_mask() {
    let mut n = InterruptNesting::new();
    let r = InterruptLock::with(&mut n, 0, |key| key.core + 10);
    assert_eq!(r, 10);
    assert_eq!(n.depth(), 0);
    assert!(n.interrupts_enabled());
    let mut lock = InterruptLock::new(0);
    let g = lock.lock(&mut n, 0);
    assert!(!n.interrupts_enabled());
    lock.unlock(&mut n, g);
    assert!(n.interrupts_enabled());
    let mut core_lock: CoreInterruptLock<1> = CoreInterruptLock::new();
    let g = core_lock.lock(&mut n, 1);
    assert_eq!(n.depth(), 1);
    core_lock.unlock(&mut n, g);
    assert_eq!(n.depth(), 0);
}

#[test]
fn preempt_lock_outermost_holder_frees_it() {
    let mut st = PreemptState::new();
    assert!(is_preempt_allowed(&st));
    let t = ContextId::Thread(7);
    let outer = acquire_nesting_lock_inner(&mut st, t, 0);
    assert!(outer.is_null());
    let inner = acquire_nesting_lock_inner(&mut st, t, 0);
    assert!(!inner.is_null());
    assert_eq!(inner.core_id(), 0);
    assert!(!inner.is_interrupt());
    release_nesting_lock_inner(&mut st, inner);
    assert_eq!(st.owner(), Some(t));
    release_nesting_lock_inner(&mut st, outer);
    assert_eq!(st.owner(), None);
    assert!(is_preempt_allowed(&st));
}

#[test]
fn preempt_lock_refuses_an_interrupt_when_held_by_another_context() {
    let mut st = PreemptState::new();
    let _held = acquire_nesting_lock_inner(&mut st, ContextId::Thread(1), 0);
    let r = try_acquire_nesting_lock_inner(&mut st, ContextId::Interrupt(3), 0);
    assert!(matches!(r, Err(TryLockError::WouldBlock)));
    assert_eq!(st.owner(), Some(ContextId::Thread(1)));
    let mut free = PreemptState::new();
    let rs = try_acquire_nesting_lock_inner(&mut free, ContextId::Interrupt(3), 2).unwrap();
    assert!(rs.is_interrupt());
    assert!(rs.is_null());
    assert!(needs_service_call(&rs, true, false));
    assert!(!needs_service_call(&rs, false, false));
}

#[test]
fn preempt_lock_with_and_guards() {
    let mut st = PreemptState::new();
    let lock = PreemptLock::new(0);
    let v = PreemptLock::with(&mut st, ContextId::Thread(2), 0, |key| key.core + 1);
    assert_eq!(v, 1);
    assert_eq!(st.owner(), None);
    let g = lock.lock(&mut st, ContextId::Thread(2), 0);
    assert_eq!(st.owner(), Some(ContextId::Thread(2)));
    PreemptLock::unlock(&mut st, g);
    assert_eq!(st.owner(), None);
}

#[test]
fn ceiling_lock_with_restores_priority_and_ceiling() {
    let mut thread = RawThread::new("worker", Priority::Thread(2), 0);
    let mut sched = CeilingState::new();
    let mut ctx = ExecutionContext::Thread;
    let lock = CeilingLock::new(Priority::Thread(6), 0, 11);
    assert_eq!(lock.ceiling(), Priority::Thread(6));
    let seen = lock.with(&mut ctx, &mut thread, &mut sched, |_key| 5);
    assert_eq!(seen, 5);
    assert_eq!(thread.priority(), Priority::Thread(2));
    assert_eq!(sched.get_ceiling(), PriorityOpt::Absent);
}

#[test]
fn nesting_ceiling_lock_raises_and_restores() {
    let mut thread = RawThread::new("worker", Priority::Thread(2), 0);
    let mut sched = CeilingState::new();
    let mut ctx = ExecutionContext::Thread;
    let rs = RawCeilingLock::acquire_nesting_lock(Priority::Thread(9), &mut ctx, &mut thread, &mut sched);
    assert_eq!(thread.priority(), Priority::Thread(9));
    assert_eq!(sched.get_ceiling(), PriorityOpt::Thread(9));
    RawCeilingLock::release_nesting_lock(rs, &mut ctx, &mut thread, &mut sched);
    assert_eq!(thread.priority(), Priority::Thread(2));
    assert_eq!(sched.get_ceiling(), PriorityOpt::Absent);
}

#[test]
fn ceiling_lock_refuses_a_thread_above_its_ceiling() {
    let mut thread = RawThread::new("high", Priority::Thread(8), 0);
    let mut sched = CeilingState::new();
    let mut ctx = ExecutionContext::Thread;
    let lock = CeilingLock::new(Priority::Thread(4), 0, 1);
    assert!(matches!(lock.try_with(&mut ctx, &mut thread, &mut sched, |_k| ()), Err(TryLockError::WouldBlock)));
    assert!(RawCeilingLock::try_acquire_nesting_lock(Priority::Thread(4), &mut ctx, &mut thread, &mut sched).is_err());
    assert_eq!(thread.priority(), Priority::Thread(8));
}

#[test]
fn scoped_ceiling_lock_sets_the_core_ceiling() {
    let mut thread = RawThread::new("worker", Priority::Thread(1), 0);
    thread.set_thread_id(5);
    let mut sched = CeilingState::new();
    let mut lock = CeilingLock::new(Priority::Thread(7), 0, 3);
    let g = lock.lock(&mut thread, &mut sched, 0);
    assert_eq!(sched.get_ceiling(), PriorityOpt::Thread(7));
    assert_eq!(thread.priority(), Priority::Thread(7));
    lock.unlock(&mut thread, &mut sched, g);
    assert_eq!(thread.priority(), Priority::Thread(1));
    assert_eq!(sched.get_ceiling(), PriorityOpt::Thread(1));
}

#[test]
fn spin_lock_masks_and_restores_interrupts() {
    let mut lock = SpinLock::new();
    let mut enabled = true;
    let g = lock.lock(&mut enabled);
    assert!(!enabled);
    assert!(matches!(lock.try_lock(&mut enabled), Err(TryLockError::WouldBlock)));
    assert!(!enabled);
    lock.unlock(&mut enabled, g);
    assert!(enabled);
    let mut g = lock.try_lock(&mut enabled).unwrap();
    lock.unlock_guard(&mut enabled, &g);
    assert!(enabled);
    lock.relock(&mut enabled, &mut g);
    assert!(!enabled);
    lock.unlock(&mut enabled, g);
    assert!(enabled);
}

#[test]
fn no_lock_always_runs() {
    assert_eq!(NoLock::with(|_k| 3), 3);
    assert!(matches!(NoLock::try_with(|_k| 4), Ok(4)));
    assert!(NoLock::new().try_lock().is_ok());
}

#[test]
fn atomic_owner_has_one_owner() {
    let mut o = AtomicOwner::new();
    assert_eq!(o.take_ownership(3), Ok(()));
    assert_eq!(o.take_ownership(4), Err(3));
    assert_eq!(o.release_ownership(3), 3);
    assert_eq!(o.take_ownership(4), Ok(()));
}

#[test]
fn inheritance_lock_owner_inherits_the_waiter_priority() {
    let mut owner = RawThread::new("owner", Priority::Thread(1), 0);
    owner.set_thread_id(10);
    let mut waiter = RawThread::new("waiter", Priority::Thread(9), 0);
    waiter.set_thread_id(11);
    let mut lock = InheritanceLock::new(0, 77);
    let guard = lock.lock(&mut owner, 0).ok().unwrap();
    assert!(owner.holds_inheritance_lock());
    match lock.lock(&mut waiter, 0) {
        Err(o) => assert_eq!(o, 10),
        Ok(_) => panic!("lock taken twice"),
    }
    assert!(matches!(lock.try_lock(&mut waiter, 0), Err(TryLockError::WouldBlock)));
    let (changed, _marker) = lock.wait_on_owner(&waiter, &mut owner);
    assert!(changed);
    assert_eq!(owner.priority(), Priority::Thread(9));
    let woken = lock.release(&mut owner, guard);
    assert_eq!(woken.map(|w| w.thread_id), Some(11));
    assert_eq!(owner.priority(), Priority::Thread(1));
    assert!(!owner.holds_inheritance_lock());
    assert!(lock.try_lock(&mut waiter, 0).is_ok());
}

#[test]
fn interrupt_handler_takes_and_releases_a_scoped_ceiling_lock() {
    let mut sched = CeilingState::new();
    let mut lock = RawCeilingLock::new(Priority::Interrupt(4), 0, 21);
    let mut handler = RawInterruptHandler::new(3, Priority::Interrupt(2));
    lock.acquire_scoped_lock_in_interrupt(&mut handler, &mut sched);
    assert_eq!(sched.get_ceiling(), PriorityOpt::Interrupt(4));
    // The lock is recorded on the handler, which now runs at its ceiling.
    assert_eq!(handler.priority(), Priority::Interrupt(4));
    assert_eq!(lock.owner(), Some(ContextId::Interrupt(3)));
    lock.release_scoped_lock_in_interrupt(&mut handler, &mut sched);
    assert_eq!(handler.priority(), Priority::Interrupt(2));
    assert_eq!(sched.get_ceiling(), PriorityOpt::Interrupt(2));
    // A second release of a free lock changes nothing.
    lock.release_scoped_lock_in_interrupt(&mut handler, &mut sched);
    assert_eq!(sched.get_ceiling(), PriorityOpt::Interrupt(2));
    assert_eq!(handler.priority(), Priority::Interrupt(2));
}

#[test]
fn scoped_ceiling_locks_released_out_of_order_restore_priority() {
    let mut thread = RawThread::new("worker", Priority::Thread(1), 0);
    thread.set_thread_id(9);
    let mut sched = CeilingState::new();
    let mut low = CeilingLock::new(Priority::Thread(4), 0, 1);
    let mut high = CeilingLock::new(Priority::Thread(8), 0, 2);
    let gl = low.lock(&mut thread, &mut sched, 0);
    let gh = high.lock(&mut thread, &mut sched, 0);
    assert_eq!(thread.priority(), Priority::Thread(8));
    low.unlock(&mut thread, &mut sched, gl);
    assert_eq!(thread.priority(), Priority::Thread(8));
    assert_eq!(sched.get_ceiling(), PriorityOpt::Thread(8));
    high.unlock(&mut thread, &mut sched, gh);
    assert_eq!(thread.priority(), Priority::Thread(1));
    assert_eq!(sched.get_ceiling(), PriorityOpt::Thread(1));
}

#[test]
fn kernel_path_takes_a_thread_ceiling_without_the_priority_check() {
    let mut thread = RawThread::new("high", Priority::Thread(8), 0);
    let mut sched = CeilingState::new();
    let mut ctx = ExecutionContext::Thread;
    let lock = CeilingLock::new(Priority::Thread(4), 0, 1);
    assert!(matches!(lock.kernel_try_with(&mut ctx, &mut thread, &mut sched, |_k| 3), Ok(3)));
    assert_eq!(thread.priority(), Priority::Thread(8));
    let irq = CeilingLock::new(Priority::Interrupt(1), 0, 2);
    assert!(matches!(irq.kernel_try_with(&mut ctx, &mut thread, &mut sched, |_k| 4), Ok(4)));
    let rs = RawCeilingLock::kernel_try_acquire_nesting_lock(Priority::Thread(2), &mut ctx, &mut thread, &mut sched).unwrap();
    assert_eq!(sched.get_ceiling(), PriorityOpt::Thread(2));
    RawCeilingLock::release_nesting_lock(rs, &mut ctx, &mut thread, &mut sched);
    assert_eq!(sched.get_ceiling(), PriorityOpt::Absent);
}

#[test]
fn core_ceiling_lock_kernel_path() {
    let mut thread = RawThread::new("t", Priority::Thread(6), 0);
    let mut sched = CeilingState::new();
    let mut ctx = ExecutionContext::Thread;
    let lock: CoreCeilingLock<0> = CoreCeilingLock::new(Priority::Thread(3), 5);
    assert!(matches!(lock.kernel_try_with(&mut ctx, &mut thread, &mut sched, |_k| 1), Ok(1)));
    assert!(matches!(lock.try_with(&mut ctx, &mut thread, &mut sched, 0, |_k| 1), Err(TryLockError::WouldBlock)));
    assert_eq!(sched.get_ceiling(), PriorityOpt::Absent);
}

#[test]
fn nesting_ceiling_lock_in_an_interrupt_handler() {
    let mut thread = RawThread::new("worker", Priority::Thread(3), 0);
    let mut sched = CeilingState::new();
    let mut handler = RawInterruptHandler::new(8, Priority::Interrupt(1));
    let mut scoped = RawCeilingLock::new(Priority::Interrupt(2), 0, 30);
    let mut plain = CeilingState::new();
    scoped.acquire_scoped_lock_in_interrupt(&mut handler, &mut plain);
    assert_eq!(handler.priority(), Priority::Interrupt(2));
    let mut ctx = ExecutionContext::Interrupt(handler);
    let rs = RawCeilingLock::try_acquire_nesting_lock(Priority::Interrupt(5), &mut ctx, &mut thread, &mut sched).unwrap();
    assert_eq!(sched.get_ceiling(), PriorityOpt::Interrupt(5));
    match ctx {
        ExecutionContext::Interrupt(ref h) => {
            assert_eq!(h.nesting_lock_priority(), PriorityOpt::Interrupt(5));
            assert_eq!(h.priority(), Priority::Interrupt(5));
        }
        ExecutionContext::Thread => panic!("context changed"),
    }
    assert_eq!(thread.priority(), Priority::Thread(3));
    RawCeilingLock::release_nesting_lock(rs, &mut ctx, &mut thread, &mut sched);
    assert_eq!(sched.get_ceiling(), PriorityOpt::Absent);
    match ctx {
        ExecutionContext::Interrupt(ref h) => {
            assert_eq!(h.nesting_lock_priority(), PriorityOpt::Absent);
            assert_eq!(h.priority(), Priority::Interrupt(2));
        }
        ExecutionContext::Thread => panic!("context changed"),
    }
}

#[test]
fn nesting_ceiling_lock_refuses_an_interrupt_above_the_ceiling() {
    let mut thread = RawThread::new("worker", Priority::Thread(3), 0);
    let mut sched = CeilingState::new();
    let handler = RawInterruptHandler::new(9, Priority::Interrupt(7));
    let mut ctx = ExecutionContext::Interrupt(handler);
    assert!(RawCeilingLock::try_acquire_nesting_lock(Priority::Interrupt(5), &mut ctx, &mut thread, &mut sched).is_err());
    assert_eq!(sched.get_ceiling(), PriorityOpt::Absent);
    let lock = CeilingLock::new(Priority::Interrupt(5), 0, 3);
    assert!(matches!(lock.try_with(&mut ctx, &mut thread, &mut sched, |_k| 1), Err(TryLockError::WouldBlock)));
    // The kernel path takes a thread ceiling without the check.
    let rs: CeilingLockRestoreState =
        RawCeilingLock::kernel_try_acquire_nesting_lock(Priority::Thread(9), &mut ctx, &mut thread, &mut sched).unwrap();
    assert_eq!(sched.get_ceiling(), PriorityOpt::Thread(9));
    RawCeilingLock::release_nesting_lock(rs, &mut ctx, &mut thread, &mut sched);
    assert_eq!(sched.get_ceiling(), PriorityOpt::Absent);
}

#[test]
fn nesting_ceiling_lock_refuses_an_inheritance_lock_holder_above_the_ceiling() {
    let mut thread = RawThread::new("holder", Priority::Thread(8), 0);
    thread.inheritance_lock_acquired(1);
    let mut sched = CeilingState::new();
    let mut ctx = ExecutionContext::Thread;
    assert!(RawCeilingLock::try_acquire_nesting_lock(Priority::Thread(4), &mut ctx, &mut thread, &mut sched).is_err());
    let lock = CeilingLock::new(Priority::Thread(4), 0, 9);
    assert!(matches!(lock.try_with(&mut ctx, &mut thread, &mut sched, |_k| 1), Err(TryLockError::WouldBlock)));
    assert_eq!(thread.priority(), Priority::Thread(8));
    assert_eq!(sched.get_ceiling(), PriorityOpt::Absent);
}
