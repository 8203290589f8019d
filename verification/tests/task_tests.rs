use scars::task::combinators::{
    join, join3, select, select3, timeout, with_deadline, Either, Either3, Elapsed, Polled,
};
use scars::task::executor::{
    BlockOnError, InterruptExecutor, LocalExecutor, PollKind, PollResult, RawExecutor, ThreadExecutor,
    WakeAction,
};
use scars::task::sleep::Sleep;
use scars::task::task::{
    JoinHandle, Task, TaskPool, ASYNC_TASK_STATE_FINISHED, ASYNC_TASK_STATE_FREE, ASYNC_TASK_STATE_RUNNING,
    ASYNC_TASK_STATE_UNINIT,
};
use scars::task::wait_for_events::WaitForEvents;
use scars::task::yield_now::yield_now;
use scars::time::{Duration, Instant};

#[test]
fn join_completes_once_both_outputs_are_in() {
    let mut j = join::<u8, &str>();
    assert!(j.needs_a() && j.needs_b());
    assert!(matches!(j.poll(Polled::Ready(1), Polled::Pending), Polled::Pending));
    assert!(!j.needs_a());
    assert!(j.needs_b());
    // A child already done is not polled again: its later outcome is ignored.
    assert!(matches!(j.poll(Polled::Ready(9), Polled::Ready("b")), Polled::Ready((1, "b"))));
    assert!(j.needs_a() && j.needs_b());
}

#[test]
fn join3_waits_for_all_three() {
    let mut j = join3::<u8, u16, u32>();
    assert!(matches!(j.poll(Polled::Pending, Polled::Ready(2), Polled::Pending), Polled::Pending));
    assert!(matches!(j.poll(Polled::Ready(1), Polled::Pending, Polled::Pending), Polled::Pending));
    assert!(j.needs_c() && !j.needs_a() && !j.needs_b());
    assert!(matches!(j.poll(Polled::Pending, Polled::Pending, Polled::Ready(3)), Polled::Ready((1, 2, 3))));
}

#[test]
fn select_prefers_the_first_ready_branch() {
    let s = select();
    assert!(matches!(s.poll(Polled::Ready(1u8), Polled::Ready(2u8)), Polled::Ready(Either::First(1))));
    assert!(matches!(s.poll(Polled::<u8>::Pending, Polled::Ready(2u8)), Polled::Ready(Either::Second(2))));
    assert!(matches!(s.poll(Polled::<u8>::Pending, Polled::<u8>::Pending), Polled::Pending));
    let s3 = select3();
    assert!(matches!(
        s3.poll(Polled::<u8>::Pending, Polled::<u8>::Pending, Polled::Ready(3u8)),
        Polled::Ready(Either3::Third(3))
    ));
    assert!(matches!(
        s3.poll(Polled::<u8>::Pending, Polled::Ready(2u8), Polled::Ready(3u8)),
        Polled::Ready(Either3::Second(2))
    ));
}

#[test]
fn timeout_elapses_at_its_deadline() {
    let t = timeout(Instant::from_ticks(100), Duration::from_ticks(50));
    assert_eq!(t.deadline, Instant::from_ticks(150));
    assert!(matches!(t.poll(Polled::Ready(7u8), Instant::from_ticks(200)), Polled::Ready(Ok(7))));
    assert!(matches!(t.poll(Polled::<u8>::Pending, Instant::from_ticks(149)), Polled::Pending));
    assert!(matches!(t.poll(Polled::<u8>::Pending, Instant::from_ticks(150)), Polled::Ready(Err(Elapsed))));
    let d = with_deadline(Instant::from_ticks(5));
    assert_eq!(d.deadline, Instant::from_ticks(5));
}

#[test]
fn sleep_completes_at_its_deadline() {
    let s = Sleep::sleep(Instant::from_ticks(10), Duration::from_ticks(5));
    assert_eq!(s.deadline(), Instant::from_ticks(15));
    assert!(!s.is_elapsed(Instant::from_ticks(14)));
    assert!(s.is_elapsed(Instant::from_ticks(15)));
    assert!(matches!(s.poll(Instant::from_ticks(14)), Polled::Pending));
    assert!(matches!(s.poll(Instant::from_ticks(16)), Polled::Ready(())));
    let u = Sleep::sleep_until(Instant::from_ticks(3));
    assert_eq!(u.deadline(), Instant::from_ticks(3));
}

#[test]
fn waiting_for_any_event_consumes_the_matching_ones() {
    let w = WaitForEvents::new(0b0110);
    assert!(w.wait_any);
    let mut pending = 0b0011;
    assert!(matches!(w.poll(&mut pending), Polled::Ready(0b0010)));
    assert_eq!(pending, 0b0001);
    assert!(matches!(w.poll(&mut pending), Polled::Pending));
    assert_eq!(pending, 0b0001);
    let a = WaitForEvents::any(0b1);
    assert!(matches!(a.poll(&mut pending), Polled::Ready(0b1)));
    assert_eq!(pending, 0);
}

#[test]
fn waiting_for_all_events_consumes_only_when_all_are_pending() {
    let w = WaitForEvents::all(0b0110);
    assert!(!w.wait_any);
    let mut pending = 0b0010;
    assert!(matches!(w.poll(&mut pending), Polled::Pending));
    assert_eq!(pending, 0b0010);
    pending |= 0b1100;
    assert!(matches!(w.poll(&mut pending), Polled::Ready(0b0110)));
    assert_eq!(pending, 0b1000);
}

#[test]
fn yield_now_is_pending_exactly_once() {
    let mut y = yield_now();
    let mut executor = LocalExecutor::Interrupt(InterruptExecutor::new());
    // The first poll requeues the task and asks for the executor to be polled.
    assert!(matches!(y.poll(&mut executor, 7, true), (Polled::Pending, Some(WakeAction::SetPollPending))));
    assert!(matches!(y.poll(&mut executor, 7, true), (Polled::Ready(()), None)));
    assert!(matches!(y.poll(&mut executor, 7, false), (Polled::Ready(()), None)));
    executor.resume_pending_tasks();
    match executor {
        LocalExecutor::Interrupt(mut e) => {
            assert_eq!(e.next_ready(), Some(7));
            assert_eq!(e.next_ready(), None);
        }
        _ => panic!("executor changed"),
    }
    let mut t = yield_now();
    let mut thread_executor = LocalExecutor::Thread(ThreadExecutor::new());
    assert!(matches!(t.poll(&mut thread_executor, 2, false), (Polled::Pending, None)));
}

#[test]
fn task_slot_life_cycle() {
    let mut t: Task<u32> = Task::new();
    assert_eq!(t.state(), ASYNC_TASK_STATE_FREE);
    assert!(t.claim());
    assert!(!t.claim());
    assert_eq!(t.state(), ASYNC_TASK_STATE_UNINIT);
    t.init();
    assert_eq!(t.state(), ASYNC_TASK_STATE_RUNNING);
    assert_eq!(t.poll(Polled::Pending), (false, None));
    assert!(matches!(t.try_read_output(7), Polled::Pending));
    assert_eq!(t.poll(Polled::Ready(5)), (true, Some(7)));
    assert_eq!(t.state(), ASYNC_TASK_STATE_FINISHED);
    assert_eq!(t.poll(Polled::Ready(6)), (true, None));
    assert!(matches!(t.try_read_output(7), Polled::Ready(5)));
    assert_eq!(t.state(), ASYNC_TASK_STATE_FREE);
}

#[test]
fn dropping_a_handle_frees_only_a_finished_task() {
    let mut t: Task<u8> = Task::new();
    t.claim();
    t.init();
    t.drop_handle();
    assert_eq!(t.state(), ASYNC_TASK_STATE_RUNNING);
    t.poll(Polled::Ready(1));
    t.drop_handle();
    assert_eq!(t.state(), ASYNC_TASK_STATE_FREE);
}

#[test]
fn pool_hands_out_free_slots_in_order() {
    let mut pool: TaskPool<u8> = TaskPool::new(2);
    assert_eq!(pool.alloc_slot(), Some(0));
    assert_eq!(pool.alloc_slot(), Some(1));
    assert_eq!(pool.alloc_slot(), None);
    let slot = pool.slot(0);
    slot.init();
    slot.poll(Polled::Ready(3));
    slot.drop_handle();
    assert_eq!(pool.alloc_slot(), Some(0));
}

#[test]
fn join_handle_reads_the_output_once() {
    let mut t: Task<u16> = Task::new();
    t.claim();
    t.init();
    let mut j = JoinHandle::new();
    assert!(matches!(j.poll(&mut t, 1), Polled::Pending));
    assert!(!j.is_finished());
    assert_eq!(t.poll(Polled::Ready(99)), (true, Some(1)));
    assert!(matches!(j.poll(&mut t, 1), Polled::Ready(99)));
    assert!(j.is_finished());
}

#[test]
fn executor_resumes_due_sleepers_in_deadline_order() {
    let mut ex = InterruptExecutor::new();
    ex.task_sleep_until(1, Instant::from_ticks(30));
    ex.task_sleep_until(2, Instant::from_ticks(10));
    ex.task_sleep_until(3, Instant::from_ticks(30));
    ex.task_sleep_until(4, Instant::from_ticks(50));
    assert_eq!(ex.next_wakeup(), Some(Instant::from_ticks(10)));
    ex.task_wait_for_interrupt(5);
    ex.spawn(6);
    assert_eq!(ex.resume_task(7, true), WakeAction::SetPollPending);
    assert_eq!(ex.resume_task(8, false), WakeAction::PollNow);
    ex.poll(PollKind::OnWakeup, Instant::from_ticks(30));
    let mut polled = Vec::new();
    while let Some(t) = ex.next_ready() {
        polled.push(t);
    }
    assert_eq!(polled, vec![6, 2, 1, 3, 7, 8]);
    assert_eq!(ex.next_wakeup(), Some(Instant::from_ticks(50)));
    ex.poll(PollKind::OnInterrupt, Instant::from_ticks(0));
    assert_eq!(ex.next_ready(), Some(5));
    assert_eq!(ex.next_ready(), None);
    ex.poll(PollKind::OnAttach, Instant::from_ticks(50));
    assert_eq!(ex.next_ready(), Some(4));
    assert_eq!(ex.next_wakeup(), None);
    ex.poll(PollKind::OnResume, Instant::from_ticks(99));
    assert_eq!(ex.next_ready(), None);
}

#[test]
fn thread_executor_rounds() {
    let mut ex = ThreadExecutor::new();
    ex.spawn(1);
    ex.task_sleep_until(2, Instant::from_ticks(20));
    ex.resume_task(3);
    ex.block_on_round(Instant::from_ticks(10));
    assert_eq!(ex.next_ready(), Some(1));
    assert_eq!(ex.next_ready(), Some(3));
    assert_eq!(ex.next_ready(), None);
    assert_eq!(ex.next_wakeup(), Some(Instant::from_ticks(20)));
    ex.resume_sleeping_tasks(Instant::from_ticks(20));
    assert_eq!(ex.next_ready(), Some(2));
    ex.resume_task(4);
    assert!(ex.resume_pending_tasks(true));
    assert!(!ex.resume_pending_tasks(true));
    assert_eq!(ex.next_ready(), Some(4));
}

#[test]
fn raw_executor_queues_each_task_once() {
    let mut ex = RawExecutor::new();
    ex.spawn(1);
    ex.resume_task(1);
    ex.resume_task(2);
    ex.resume_task(2);
    ex.task_sleep_until(3, Instant::from_ticks(5));
    ex.task_sleep_until(2, Instant::from_ticks(5));
    ex.begin_poll(Instant::from_ticks(5));
    let mut polled = Vec::new();
    while let Some(t) = ex.next_ready() {
        polled.push(t);
    }
    assert_eq!(polled, vec![1, 3, 2]);
    assert_eq!(ex.poll_result(), PollResult { deadline_opt: None });
    ex.task_sleep_until(4, Instant::from_ticks(9));
    assert_eq!(ex.poll_result(), PollResult { deadline_opt: Some(Instant::from_ticks(9)) });
    assert!(!ex.resume_pending_tasks());
    ex.resume_task(4);
    assert!(ex.resume_pending_tasks());
    ex.resume_sleeping_tasks(Instant::from_ticks(9));
    assert_eq!(ex.next_ready(), Some(4));
    assert_eq!(ex.next_ready(), None);
    assert_eq!(BlockOnError::NotSupported, BlockOnError::NotSupported);
}

#[test]
fn local_executor_dispatches_to_its_executor() {
    let mut thread_ex = LocalExecutor::Thread(ThreadExecutor::new());
    thread_ex.spawn(1);
    assert_eq!(thread_ex.resume_task(2, false), None);
    thread_ex.task_sleep_until(3, Instant::from_ticks(9));
    thread_ex.resume_pending_tasks();
    match &mut thread_ex {
        LocalExecutor::Thread(e) => {
            assert_eq!(e.next_ready(), Some(1));
            assert_eq!(e.next_ready(), Some(2));
            assert_eq!(e.next_wakeup(), Some(Instant::from_ticks(9)));
        }
        _ => panic!("executor kind changed"),
    }
    let mut irq_ex = LocalExecutor::Interrupt(InterruptExecutor::new());
    assert_eq!(irq_ex.resume_task(4, true), Some(WakeAction::SetPollPending));
    irq_ex.resume_pending_tasks();
    match &mut irq_ex {
        LocalExecutor::Interrupt(e) => assert_eq!(e.next_ready(), Some(4)),
        _ => panic!("executor kind changed"),
    }
}
