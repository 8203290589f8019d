use scars::async_sync::{AsyncChannel, AsyncCondvar, AsyncMutex};
use scars::task::combinators::Polled;

#[test]
fn async_mutex_has_one_holder() {
    let mut m = AsyncMutex::new(5u32);
    assert!(matches!(m.poll_lock(0), Polled::Ready(())));
    assert!(matches!(m.poll_lock(0), Polled::Pending));
    assert!(!m.try_lock(0));
    *m.get_mut() += 1;
    assert_eq!(*m.get_mut(), 6);
    m.unlock();
    assert!(m.try_lock(0));
}

#[test]
fn async_condvar_releases_waiters_after_a_notify() {
    let mut cv = AsyncCondvar::new();
    let seen = cv.generation();
    assert!(matches!(cv.poll_wait(seen), Polled::Pending));
    cv.notify_one();
    assert!(matches!(cv.poll_wait(seen), Polled::Ready(())));
    let seen2 = cv.generation();
    cv.notify_all();
    assert!(matches!(cv.poll_wait(seen2), Polled::Ready(())));
    assert_eq!(cv.wait_while(&3u8, |v: &u8| *v > 2), Some(cv.generation()));
    assert_eq!(cv.wait_while(&1u8, |v: &u8| *v > 2), None);
}

#[test]
fn async_channel_delivers_in_order() {
    let mut ch: AsyncChannel<u8, 2> = AsyncChannel::new();
    assert_eq!(ch.try_recv(0), None);
    assert_eq!(ch.try_send(1, 0), Ok(()));
    let mut item = Some(2u8);
    assert!(matches!(ch.poll_send(&mut item, 0), Polled::Ready(())));
    assert_eq!(item, None);
    assert_eq!(ch.try_send(3, 0), Err(3));
    let mut blocked = Some(4u8);
    assert!(matches!(ch.poll_send(&mut blocked, 0), Polled::Pending));
    assert_eq!(blocked, Some(4));
    assert!(matches!(ch.poll_recv(0), Polled::Ready(1)));
    assert_eq!(ch.try_recv(0), Some(2));
    assert!(matches!(ch.poll_recv(0), Polled::Pending));
}

#[test]
fn async_channel_refuses_while_its_executor_holds_the_mutex() {
    let mut m = AsyncMutex::new(1u8);
    assert!(m.try_lock(3));
    // A second task of the same executor waits.
    assert!(!m.try_lock(3));
    assert!(matches!(m.poll_lock(3), Polled::Pending));
    m.unlock();
    // Once free, a task of another executor may take it.
    assert!(matches!(m.poll_lock(4), Polled::Ready(())));
}
