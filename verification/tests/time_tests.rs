use scars::time::{Duration, Instant, TICK_FREQ_HZ};

#[test]
fn duration_constructors_count_ticks() {
    assert_eq!(Duration::second().as_ticks(), TICK_FREQ_HZ);
    assert_eq!(Duration::millisecond().as_ticks(), 1_000);
    assert_eq!(Duration::microsecond().as_ticks(), 1);
    assert_eq!(Duration::from_secs(3).as_ticks(), 3_000_000);
    assert_eq!(Duration::from_millis(5).as_ticks(), 5_000);
    assert_eq!(Duration::from_micros(7).as_ticks(), 7);
    assert_eq!(Duration::new(2, 1_500).as_ticks(), 2_000_001);
    assert!(Duration::zero().is_zero());
    assert_eq!(Duration::max_duration().as_ticks(), u64::MAX);
}

#[test]
fn duration_conversions_round_down() {
    let d = Duration::from_ticks(2_345_678);
    assert_eq!(d.as_secs(), 2);
    assert_eq!(d.as_millis(), 2_345);
    assert_eq!(d.as_micros(), 2_345_678);
    assert_eq!(d.as_nanos(), 2_345_678_000);
}

#[test]
fn duration_saturating_and_checked_arithmetic() {
    let a = Duration::from_ticks(10);
    let b = Duration::from_ticks(4);
    assert_eq!(a.saturating_add(b).as_ticks(), 14);
    assert_eq!(b.saturating_sub(a).as_ticks(), 0);
    assert_eq!(a.saturating_sub(b).as_ticks(), 6);
    assert_eq!(Duration::max_duration().saturating_add(b).as_ticks(), u64::MAX);
    assert_eq!(a.checked_add(b).map(|d| d.as_ticks()), Some(14));
    assert!(Duration::max_duration().checked_add(b).is_none());
    assert_eq!(a.checked_sub(b).map(|d| d.as_ticks()), Some(6));
    assert!(b.checked_sub(a).is_none());
    assert_eq!(a.div_duration(b), 2);
}

#[test]
fn add_then_since_gives_the_duration_back() {
    let i = Instant::from_ticks(1_000);
    let d = Duration::from_millis(3);
    let later = i.checked_add(d).unwrap();
    assert_eq!(later.as_ticks(), 4_000);
    assert_eq!(later.duration_since(i), d);
}

#[test]
fn saturating_sub_undoes_saturating_add() {
    let a = Duration::from_ticks(123);
    let b = Duration::from_ticks(77);
    assert_eq!(a.saturating_add(b).saturating_sub(b), a);
}

#[test]
fn instant_duration_since_saturates() {
    let early = Instant::from_ticks(10);
    let late = Instant::from_ticks(25);
    assert_eq!(late.duration_since(early).as_ticks(), 15);
    assert_eq!(early.duration_since(late).as_ticks(), 0);
    assert_eq!(Instant::zero().as_ticks(), 0);
    assert!(Instant::from_ticks(u64::MAX).checked_add(Duration::from_ticks(1)).is_none());
}

#[test]
fn deadline_is_reached_from_its_tick_on() {
    let deadline = Instant::from_ticks(100);
    assert!(!deadline.is_reached_at(Instant::from_ticks(99)));
    assert!(deadline.is_reached_at(Instant::from_ticks(100)));
    assert!(deadline.is_reached_at(Instant::from_ticks(101)));
}

#[test]
fn duration_and_instant_operators() {
    let a = Duration::from_millis(3);
    let b = Duration::from_millis(2);
    assert_eq!((a + b).as_millis(), 5);
    assert_eq!((a - b).as_millis(), 1);
    assert_eq!((a * 4u32).as_millis(), 12);
    assert_eq!((a * 5u64).as_millis(), 15);
    assert_eq!((Duration::from_millis(9) / 3u32).as_millis(), 3);
    assert_eq!((Duration::from_millis(9) / 2u64).as_micros(), 4_500);
    let i = Instant::from_ticks(100);
    assert_eq!((i + Duration::from_ticks(50)).as_ticks(), 150);
    assert_eq!((Instant::from_ticks(150) - i).as_ticks(), 50);
    assert_eq!((i - Instant::from_ticks(150)).as_ticks(), 0);
}
