use scars::channel::{LockedChannel, TryRecvError, TrySendError};
use scars::condvar::LockedCondvar;
use scars::notify::{Notify, WaitEntry, WaitList};
use scars::once::{Once, OnceLock};
use scars::lock::no_lock::NoLock;
use scars::protected::{BarrierResult, Protected, TimedOut};
use scars::rendezvous::LockedRendezvous;
use scars::semaphore::Semaphore;
use scars::thread::RawThread;
use scars::time::Instant;
use scars::task::combinators::Polled;
use scars::Priority;

fn waiter(thread_id: u32, prio: u8) -> WaitEntry {
    WaitEntry { thread_id, priority: Priority::Thread(prio) }
}

#[test]
fn notify_wakes_highest_priority_first_and_equal_priorities_in_order() {
    let mut n = Notify::new();
    let _ = n.arm(waiter(1, 3));
    let _ = n.arm(waiter(2, 7));
    let _ = n.arm(waiter(3, 3));
    n.wait(WaitEntry { thread_id: 4, priority: Priority::Interrupt(0) });
    assert_eq!(n.notify_one(), Some(WaitEntry { thread_id: 4, priority: Priority::Interrupt(0) }));
    assert_eq!(n.notify_one(), Some(waiter(2, 7)));
    assert_eq!(n.notify_one(), Some(waiter(1, 3)));
    assert_eq!(n.notify_one(), Some(waiter(3, 3)));
    assert_eq!(n.notify_one(), None);
    assert!(n.is_empty());
}

#[test]
fn notify_all_wakes_everyone_in_wake_order() {
    let mut n = Notify::new();
    n.wait(waiter(1, 1));
    n.wait(waiter(2, 9));
    let mut ran = false;
    n.wait_with(waiter(3, 5), |_queue| ran = true);
    assert!(ran);
    let woken = n.notify_all();
    assert_eq!(woken, vec![waiter(2, 9), waiter(3, 5), waiter(1, 1)]);
    assert!(n.is_empty());
}

#[test]
fn notify_remove_takes_out_a_timed_out_waiter() {
    let mut n = Notify::new();
    n.wait(waiter(1, 1));
    n.wait(waiter(2, 2));
    assert!(n.remove(1));
    assert!(!n.remove(1));
    assert_eq!(n.notify_one(), Some(waiter(2, 2)));
    assert!(n.is_empty());
}

#[test]
fn wait_list_keeps_priority_order() {
    let mut l = WaitList::new();
    l.push_priority(waiter(1, 2));
    l.push_priority(waiter(2, 4));
    l.push_priority(waiter(3, 4));
    assert_eq!(l.len(), 3);
    assert_eq!(l.pop_front(), Some(waiter(2, 4)));
    assert!(l.remove(1));
    assert_eq!(l.pop_front(), Some(waiter(3, 4)));
    assert!(l.is_empty());
}

#[test]
fn semaphore_counts_and_queues() {
    let mut s = Semaphore::new(1);
    assert!(matches!(s.acquire(waiter(1, 1)), BarrierResult::Done(())));
    assert_eq!(s.available(), 0);
    assert!(matches!(s.acquire(waiter(2, 1)), BarrierResult::Wait(_)));
    assert!(!s.try_acquire());
    assert_eq!(s.release(), Some(waiter(2, 1)));
    assert_eq!(s.available(), 1);
    assert!(s.try_acquire());
    assert_eq!(s.release(), None);
}

#[test]
fn semaphore_release_saturates() {
    let mut s = Semaphore::new(u32::MAX);
    assert_eq!(s.release(), None);
    assert_eq!(s.available(), u32::MAX);
}

#[test]
fn semaphore_acquire_until_times_out() {
    let mut s = Semaphore::new(0);
    assert!(matches!(s.acquire_until(waiter(1, 1), false), Ok(BarrierResult::Wait(_))));
    assert!(matches!(s.acquire_until(waiter(1, 1), true), Err(TimedOut)));
    assert_eq!(s.release(), None);
    assert_eq!(s.available(), 1);
}

#[test]
fn channel_delivers_in_order_and_reports_full_and_empty() {
    let mut ch: LockedChannel<u32, 2> = LockedChannel::new();
    assert_eq!(ch.try_recv(), Err(TryRecvError::Empty));
    assert_eq!(ch.try_send(1), Ok(()));
    assert_eq!(ch.try_send(2), Ok(()));
    assert_eq!(ch.try_send(3), Err(TrySendError::Full(3)));
    assert_eq!(ch.used(), 2);
    assert_eq!(ch.free(), 0);
    assert_eq!(ch.capacity(), 2);
    assert_eq!(ch.try_recv(), Ok(1));
    assert_eq!(ch.try_recv(), Ok(2));
    assert_eq!(ch.try_recv(), Err(TryRecvError::Empty));
}

#[test]
fn channel_blocking_steps() {
    let mut ch: LockedChannel<u8, 1> = LockedChannel::new();
    let (tx, rx) = ch.split();
    assert!(matches!(rx.recv(&mut ch, waiter(1, 1)), BarrierResult::Wait(_)));
    let mut item = Some(10u8);
    assert!(matches!(tx.send(&mut ch, waiter(2, 1), &mut item), BarrierResult::Done(())));
    assert_eq!(item, None);
    let mut second = Some(11u8);
    assert!(matches!(tx.send(&mut ch, waiter(2, 1), &mut second), BarrierResult::Wait(_)));
    assert_eq!(second, Some(11));
    assert!(matches!(rx.recv(&mut ch, waiter(1, 1)), BarrierResult::Done(10)));
    assert!(matches!(tx.send(&mut ch, waiter(2, 1), &mut second), BarrierResult::Done(())));
    assert!(matches!(rx.try_recv(&mut ch), Ok(11)));
}

#[test]
fn channel_timed_steps() {
    let mut ch: LockedChannel<u8, 1> = LockedChannel::new();
    assert!(matches!(ch.recv_until(waiter(1, 1), false), Ok(BarrierResult::Wait(_))));
    assert!(matches!(ch.recv_until(waiter(1, 1), true), Err(TimedOut)));
    let mut item = Some(4u8);
    assert!(matches!(ch.send_until(waiter(2, 1), &mut item, false), Ok(BarrierResult::Done(()))));
    let mut other = Some(5u8);
    assert!(matches!(ch.send_until(waiter(2, 1), &mut other, true), Err(TimedOut)));
    assert_eq!(other, None);
    assert!(matches!(ch.try_recv(), Ok(4)));
}

#[test]
fn once_runs_its_closure_at_most_once() {
    let mut o = Once::new();
    let mut runs = 0;
    assert!(!o.is_completed());
    assert!(o.call_once(|| runs += 1));
    assert!(o.is_completed());
    assert!(!o.call_once(|| runs += 1));
    assert_eq!(runs, 1);
}

#[test]
fn once_lock_is_set_once() {
    let mut l: OnceLock<u32> = OnceLock::new();
    assert_eq!(l.get(), None);
    assert_eq!(l.set(3), Ok(()));
    assert_eq!(l.set(4), Err(4));
    assert_eq!(l.get(), Some(&3));
    assert_eq!(*l.get_or_init(|| 9), 3);
    assert_eq!(l.take(), Some(3));
    assert_eq!(*l.get_or_init(|| 9), 9);
    assert_eq!(l.into_inner(), Some(9));
}

#[test]
fn rendezvous_round_trip_returns_the_closure_result() {
    let mut rv: LockedRendezvous<u32, u32> = LockedRendezvous::new();
    let (entry, accept) = rv.split();
    let caller = waiter(1, 2);
    let callee = waiter(2, 2);
    // The callee waits for an argument first.
    assert!(matches!(accept.accept(&mut rv, callee, |a| a * 2), BarrierResult::Wait(_)));
    // The caller hands 21 over and waits for the result.
    let mut arg = Some(21u32);
    assert!(matches!(entry.entry(&mut rv, caller, &mut arg), BarrierResult::Wait(_)));
    assert_eq!(arg, None);
    // The callee serves the call.
    assert!(matches!(accept.accept(&mut rv, callee, |a| a * 2), BarrierResult::Done(())));
    // The caller picks up the result.
    assert!(matches!(entry.entry(&mut rv, caller, &mut arg), BarrierResult::Done(42)));
}

#[test]
fn rendezvous_steps() {
    let mut rv: LockedRendezvous<u8, u8> = LockedRendezvous::new();
    assert!(matches!(rv.take_arg(waiter(1, 1)), BarrierResult::Wait(_)));
    rv.post(5);
    assert!(matches!(rv.take_arg(waiter(1, 1)), BarrierResult::Done(5)));
    assert!(matches!(rv.collect(waiter(2, 1)), BarrierResult::Wait(_)));
    rv.reply(6);
    assert!(matches!(rv.collect(waiter(2, 1)), BarrierResult::Done(6)));
}

#[test]
fn condvar_waits_while_the_condition_holds() {
    let mut cv = LockedCondvar::new();
    let value = 3u32;
    assert!(matches!(cv.wait_while(waiter(1, 1), &value, |v: &u32| *v < 5), BarrierResult::Wait(_)));
    assert!(matches!(cv.wait_while(waiter(2, 1), &value, |v: &u32| *v > 5), BarrierResult::Done(())));
    assert_eq!(cv.notify_one(), Some(waiter(1, 1)));
    assert_eq!(cv.notify_one(), None);
}

#[test]
fn condvar_timed_wait_and_notify_all() {
    let mut cv = LockedCondvar::new();
    let value = 1u8;
    assert!(matches!(
        cv.wait_while_until(waiter(1, 1), &value, |v: &u8| *v == 1, false),
        Ok(BarrierResult::Wait(_))
    ));
    assert!(matches!(cv.wait_while_until(waiter(1, 1), &value, |v: &u8| *v == 1, true), Err(TimedOut)));
    let _ = cv.wait(waiter(2, 4));
    let mut unlocked = false;
    cv.wait_with(waiter(3, 6), |_queue| unlocked = true);
    assert!(unlocked);
    assert_eq!(cv.notify_all(), vec![waiter(3, 6), waiter(2, 4)]);
}

#[test]
fn notify_requeues_a_waiter_whose_priority_changed() {
    let mut n = Notify::new();
    n.wait(waiter(1, 5));
    n.wait(waiter(2, 3));
    assert!(n.reinsert(2, Priority::Thread(8)));
    assert!(!n.reinsert(9, Priority::Thread(8)));
    assert_eq!(n.notify_one(), Some(waiter(2, 8)));
    assert_eq!(n.notify_one(), Some(waiter(1, 5)));
}

#[test]
fn bounded_waits_record_the_deadline_and_report_the_outcome() {
    use_bounded_waits();
}

fn use_bounded_waits() {
    let mut thread = RawThread::new("w", Priority::Thread(3), 0);
    let mut n = Notify::new();
    n.wait_until(waiter(1, 3), &mut thread, Instant::from_ticks(40));
    assert_eq!(thread.take_pending_block_deadline(), Some(Instant::from_ticks(40)));
    assert_eq!(thread.take_last_wait_outcome(), Ok(()));
    thread.set_wait_timed_out(true);
    assert_eq!(thread.take_last_wait_outcome(), Err(TimedOut));
    let mut cv = LockedCondvar::new();
    let mut released = false;
    cv.wait_until(waiter(2, 3), |_queue| released = true, &mut thread, Instant::from_ticks(50));
    assert!(released);
    assert_eq!(thread.take_pending_block_deadline(), Some(Instant::from_ticks(50)));
    let mut called = false;
    n.wait_until_with(waiter(3, 1), |_queue| called = true, &mut thread, Instant::from_ticks(60));
    assert!(called);
    assert_eq!(n.notify_one(), Some(waiter(1, 3)));
    assert_eq!(cv.notify_one(), Some(waiter(2, 3)));
}

#[test]
fn protected_value_is_reached_inside_closures() {
    let mut p = Protected::new(1u32);
    let got = p.with_key(NoLock::new_key(), |_k, v: &mut u32| {
        *v += 1;
        *v
    });
    assert_eq!(got, 2);
    let r = p.with_barrier(NoLock::new_key(), |_k, v: &mut u32| {
        if *v > 5 {
            BarrierResult::Done(*v)
        } else {
            *v += 10;
            BarrierResult::Done(0)
        }
    });
    assert!(matches!(r, BarrierResult::Done(0)));
    let mut thread = RawThread::new("w", Priority::Thread(1), 0);
    let mut n = Notify::new();
    let r2 = p.with_barrier_until(
        NoLock::new_key(),
        |_k, v: &mut u32| {
            if *v == 12 {
                BarrierResult::Wait(n.arm(waiter(1, 1)))
            } else {
                BarrierResult::Done(*v)
            }
        },
        &mut thread,
        Instant::from_ticks(70),
    );
    assert!(matches!(r2, BarrierResult::Wait(_)));
    assert_eq!(thread.take_pending_block_deadline(), Some(Instant::from_ticks(70)));
    assert_eq!(n.notify_one(), Some(waiter(1, 1)));
}

#[test]
fn channel_hands_woken_waiters_to_the_kernel() {
    let mut ch: LockedChannel<u8, 1> = LockedChannel::new();
    assert!(matches!(ch.recv(waiter(1, 2)), BarrierResult::Wait(_)));
    assert_eq!(ch.try_send(7), Ok(()));
    assert_eq!(ch.take_woken(), vec![waiter(1, 2)]);
    let mut item = Some(8u8);
    assert!(matches!(ch.send(waiter(2, 1), &mut item), BarrierResult::Wait(_)));
    assert!(matches!(ch.recv(waiter(1, 2)), BarrierResult::Done(7)));
    assert_eq!(ch.take_woken(), vec![waiter(2, 1)]);
    assert!(ch.take_woken().is_empty());
}

#[test]
fn rendezvous_hands_woken_waiters_to_the_kernel() {
    let mut rv: LockedRendezvous<u8, u8> = LockedRendezvous::new();
    assert!(matches!(rv.take_arg(waiter(2, 1)), BarrierResult::Wait(_)));
    rv.post(3);
    assert_eq!(rv.take_woken(), vec![waiter(2, 1)]);
    rv.reply(4);
    assert!(rv.take_woken().is_empty());
}

#[test]
fn once_begin_wins_only_for_the_first_caller() {
    let mut o = Once::new();
    assert!(o.begin());
    // A second caller finds the run started and returns before it completes.
    assert!(!o.begin());
    assert!(!o.is_completed());
    o.finish();
    assert!(o.is_completed());
    assert!(!o.begin());
    let mut ran = false;
    assert!(!o.call_once(|| ran = true));
    assert!(!ran);
}

#[test]
fn once_lock_get_mut_updates_the_value() {
    let mut l: OnceLock<u32> = OnceLock::new();
    assert!(l.get_mut().is_none());
    assert!(l.set(4).is_ok());
    if let Some(v) = l.get_mut() {
        *v += 1;
    }
    assert_eq!(l.get(), Some(&5));
}

#[test]
fn bounded_condvar_wait_relocks_and_reports_the_outcome() {
    let mut thread = RawThread::new("w", Priority::Thread(3), 0);
    let mut locked = false;
    let mut released = false;
    // Notified in time: the mutex is taken again and kept.
    let r = LockedCondvar::finish_wait_until(&mut thread, || locked = true, || released = true);
    assert_eq!(r, Ok(()));
    assert!(locked);
    assert!(!released);
    // The deadline passed first: the mutex is taken again, then released.
    thread.set_wait_timed_out(true);
    let mut relocked = false;
    let mut dropped = false;
    let r = LockedCondvar::finish_wait_until(&mut thread, || relocked = true, || dropped = true);
    assert_eq!(r, Err(TimedOut));
    assert!(relocked);
    assert!(dropped);
}

#[test]
fn async_wait_is_ready_once_notified() {
    let mut n = Notify::new();
    assert!(matches!(n.poll_async_wait(waiter(4, 2), false), Polled::Pending));
    assert!(matches!(n.poll_async_wait(waiter(4, 2), true), Polled::Pending));
    assert_eq!(n.notify_one(), Some(waiter(4, 2)));
    assert!(matches!(n.poll_async_wait(waiter(4, 2), true), Polled::Ready(())));
}
