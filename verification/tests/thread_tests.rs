use scars::monitor::{effective_execution_time, MonitorOp, MonitorState, MonitorWindow};
use scars::thread::{
    complete_pending_ops, CeilingLockEntry, RawThread, StartAction, ThreadBuilder, ThreadExecutionState,
    ThreadIdAllocator, WaitEvents, IDLE_THREAD_ID, INVALID_THREAD_ID,
    OP_CHECK_EVENTS, OP_REINSERT_WAIT_QUEUE, OP_RESUME, OP_START, OP_WAKEUP,
};
use scars::time::Duration;
use scars::time::Instant;
use scars::{Priority, PriorityOpt};

#[test]
fn new_thread_runs_at_its_base_priority() {
    let t = RawThread::new("main", Priority::Thread(3), 1);
    assert_eq!(t.thread_id(), INVALID_THREAD_ID);
    assert_eq!(t.name(), "main");
    assert_eq!(t.base_priority(), Priority::Thread(3));
    assert_eq!(t.priority(), Priority::Thread(3));
    assert_eq!(t.core_id(), 1);
    assert_eq!(t.state(), ThreadExecutionState::Created);
    assert_eq!(t.ceiling_lock_priority(), PriorityOpt::Absent);
    assert!(!t.holds_inheritance_lock());
    let info = t.get_info();
    assert_eq!(info.name, "main");
    assert_eq!(info.base_priority, Priority::Thread(3));
}

#[test]
fn thread_lifecycle_states() {
    let mut t = RawThread::new("t", Priority::Thread(1), 0);
    t.start();
    assert_eq!(t.state(), ThreadExecutionState::Started);
    t.set_state(ThreadExecutionState::Running);
    assert_eq!(t.state(), ThreadExecutionState::Running);
    t.set_thread_id(42);
    assert_eq!(t.thread_id(), 42);
}

#[test]
fn priority_follows_the_highest_scoped_ceiling() {
    let mut t = RawThread::new("t", Priority::Thread(2), 0);
    t.ceiling_lock_acquired(CeilingLockEntry { lock_id: 1, ceiling: Priority::Thread(5) });
    assert_eq!(t.priority(), Priority::Thread(5));
    t.ceiling_lock_acquired(CeilingLockEntry { lock_id: 2, ceiling: Priority::Thread(9) });
    assert_eq!(t.priority(), Priority::Thread(9));
    assert_eq!(t.ceiling_lock_priority(), PriorityOpt::Thread(9));
    t.ceiling_lock_released(2);
    assert_eq!(t.priority(), Priority::Thread(5));
    t.ceiling_lock_released(1);
    assert_eq!(t.priority(), Priority::Thread(2));
    assert_eq!(t.ceiling_lock_priority(), PriorityOpt::Absent);
}

#[test]
fn nesting_lock_priority_is_raised_and_restored() {
    let mut t = RawThread::new("t", Priority::Thread(2), 0);
    let saved = t.raise_nesting_lock_priority(Priority::Interrupt(1));
    assert_eq!(saved, PriorityOpt::Absent);
    assert_eq!(t.priority(), Priority::Interrupt(1));
    t.set_nesting_lock_priority(saved);
    assert_eq!(t.priority(), Priority::Thread(2));
}

#[test]
fn inherited_priority_lifts_the_thread() {
    let mut t = RawThread::new("t", Priority::Thread(2), 0);
    assert!(t.inherit_priority(Priority::Thread(7)));
    assert_eq!(t.priority(), Priority::Thread(7));
    assert!(!t.inherit_priority(Priority::Thread(4)));
    assert_eq!(t.priority(), Priority::Thread(7));
    assert_eq!(t.waiting_priority(), Priority::Thread(7));
    assert!(!t.update_priority());
}

#[test]
fn inheritance_lock_release_drops_inherited_priority() {
    let mut t = RawThread::new("t", Priority::Thread(2), 0);
    t.inheritance_lock_acquired(8);
    assert!(t.holds_inheritance_lock());
    t.inherit_priority(Priority::Thread(6));
    assert!(t.inheritance_lock_released(8));
    assert_eq!(t.priority(), Priority::Thread(2));
    assert!(!t.holds_inheritance_lock());
}

#[test]
fn wait_bookkeeping_flags() {
    let mut t = RawThread::new("t", Priority::Thread(2), 0);
    t.arm_wait(3);
    t.disarm_wait();
    t.set_wait_timed_out(true);
    assert!(t.take_wait_timed_out());
    assert!(!t.take_wait_timed_out());
    t.set_pending_block_deadline(Some(Instant::from_ticks(50)));
    assert_eq!(t.take_pending_block_deadline(), Some(Instant::from_ticks(50)));
    assert_eq!(t.take_pending_block_deadline(), None);
}

#[test]
fn events_resume_a_waiting_thread() {
    let mut t = RawThread::new("t", Priority::Thread(2), 0);
    assert!(!t.send_events(0b1));
    t.set_wait_events(Some(WaitEvents { events: 0b110, wait_any: false }));
    assert!(!t.send_events(0b010));
    assert!(t.send_events(0b100));
    assert_eq!(t.peek_pending_events(), 0b111);
    let any = WaitEvents { events: 0b1000, wait_any: true };
    assert!(!any.should_resume(0b0111));
    assert!(any.should_resume(0b1000));
}

#[test]
fn monitor_records_the_worst_window() {
    let mut m = MonitorState::new();
    m.apply(MonitorOp::Restart, Duration::from_ticks(10));
    assert_eq!(m.window, Some(MonitorWindow { start: Duration::from_ticks(10), fired: false }));
    m.apply(MonitorOp::Restart, Duration::from_ticks(40));
    assert_eq!(m.wcet.as_ticks(), 30);
    m.apply(MonitorOp::Cancel, Duration::from_ticks(50));
    assert_eq!(m.wcet.as_ticks(), 30);
    assert_eq!(m.window, None);
    m.apply(MonitorOp::Cancel, Duration::from_ticks(500));
    assert_eq!(m.wcet.as_ticks(), 30);
    m.apply(MonitorOp::ResetWcet, Duration::from_ticks(600));
    assert_eq!(m.wcet.as_ticks(), 0);
}

#[test]
fn execution_time_adds_the_running_slice() {
    let acc = Duration::from_ticks(100);
    assert_eq!(effective_execution_time(acc, None), acc);
    assert_eq!(effective_execution_time(acc, Some(Duration::from_ticks(5))).as_ticks(), 105);
    assert_eq!(
        effective_execution_time(Duration::max_duration(), Some(Duration::from_ticks(5))).as_ticks(),
        u64::MAX
    );
}

#[test]
fn deferred_operations_attempted_and_retried() {
    let mut t = RawThread::new("t", Priority::Thread(1), 0);
    let all = OP_START | OP_RESUME | OP_WAKEUP | OP_CHECK_EVENTS | OP_REINSERT_WAIT_QUEUE;
    assert_eq!(t.ops_to_attempt(all), OP_START | OP_RESUME | OP_WAKEUP);
    t.set_wait_events(Some(WaitEvents { events: 1, wait_any: true }));
    t.send_events(1);
    t.arm_wait(4);
    assert_eq!(t.ops_to_attempt(all), all);
    assert_eq!(t.ops_to_attempt(OP_CHECK_EVENTS), OP_CHECK_EVENTS);
    assert_eq!(complete_pending_ops(OP_START | OP_WAKEUP, OP_WAKEUP), (false, OP_WAKEUP));
    assert_eq!(complete_pending_ops(OP_START, OP_WAKEUP), (true, 0));
}

#[test]
fn builder_assigns_ids_and_start_picks_the_core_path() {
    let mut ids = ThreadIdAllocator::new();
    let b = ThreadBuilder::new(RawThread::new("a", Priority::Thread(2), 0));
    assert_eq!(b.name(), "a");
    assert_eq!(b.base_priority(), Priority::Thread(2));
    let h = b.attach(&mut ids);
    assert_eq!(h.name(), "a");
    let (t, action) = h.start(0);
    assert_eq!(t.thread_id(), IDLE_THREAD_ID);
    assert_eq!(t.state(), ThreadExecutionState::Started);
    assert_eq!(action, StartAction::ResumeNow);
    let h2 = ThreadBuilder::new(RawThread::new("b", Priority::Thread(3), 1)).attach(&mut ids);
    assert_eq!(h2.base_priority(), Priority::Thread(3));
    let (t2, action2) = h2.start(0);
    assert_eq!(t2.thread_id(), IDLE_THREAD_ID + 1);
    assert_eq!(action2, StartAction::PostStart);
}
