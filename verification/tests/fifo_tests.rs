use scars::fifo::FIFO;

#[test]
fn fifo_returns_items_in_push_order() {
    let mut f: FIFO<u32, 3> = FIFO::new();
    assert!(f.is_empty());
    assert!(f.push(1));
    assert!(f.push(2));
    assert_eq!(f.pop(), Some(1));
    assert!(f.push(3));
    assert!(f.push(4));
    assert!(f.is_full());
    assert!(!f.push(5));
    assert_eq!(f.pop(), Some(2));
    assert_eq!(f.pop(), Some(3));
    assert_eq!(f.pop(), Some(4));
    assert_eq!(f.pop(), None);
}

#[test]
fn fifo_counts_used_and_free_slots() {
    let mut f: FIFO<u8, 4> = FIFO::new();
    assert_eq!(f.capacity(), 4);
    assert_eq!(f.used(), 0);
    assert_eq!(f.free(), 4);
    f.push(9);
    f.push(8);
    assert_eq!(f.used(), 2);
    assert_eq!(f.free(), 2);
    assert!(!f.is_empty());
    assert!(!f.is_full());
}

#[test]
fn fifo_wraps_around_many_times() {
    let mut f: FIFO<u64, 2> = FIFO::new();
    for i in 0..100u64 {
        assert!(f.push(i));
        assert_eq!(f.pop(), Some(i));
    }
    assert!(f.is_empty());
}

#[test]
fn push_then_pop_on_empty_fifo_gives_the_item() {
    let mut f: FIFO<i32, 1> = FIFO::new();
    assert!(f.push(-7));
    assert_eq!(f.pop(), Some(-7));
    assert!(f.is_empty());
}

#[test]
fn zero_capacity_fifo_refuses_everything() {
    let mut f: FIFO<u8, 0> = FIFO::new();
    assert!(f.is_full());
    assert!(!f.push(1));
    assert_eq!(f.pop(), None);
}
