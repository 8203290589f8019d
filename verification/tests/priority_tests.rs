use portable_atomic::Ordering;
use scars::atomic_priority::{AtomicPriority, AtomicPriorityOpt};
use scars::priority::{maxu8, INTERRUPT_BIT, INVALID_PRIORITY};
use scars::{Priority, PriorityOpt};

#[test]
fn thread_priority_packs_as_its_value() {
    assert_eq!(Priority::thread(5).into_any(), 5);
    assert_eq!(Priority::from_any(5), Priority::Thread(5));
}

#[test]
fn interrupt_priority_packs_with_interrupt_bit() {
    let p = Priority::interrupt(3);
    assert_eq!(p.into_any(), INTERRUPT_BIT + 3);
    assert_eq!(p.into_any(), 16387);
    assert_eq!(Priority::from_any(16387), Priority::Interrupt(3));
}

#[test]
fn packing_roundtrips_for_every_priority() {
    for v in 0..=255u8 {
        assert_eq!(Priority::from_any(Priority::Thread(v).into_any()), Priority::Thread(v));
        assert_eq!(Priority::from_any(Priority::Interrupt(v).into_any()), Priority::Interrupt(v));
        assert_eq!(PriorityOpt::from_any(PriorityOpt::Thread(v).into_any()), PriorityOpt::Thread(v));
        assert_eq!(
            PriorityOpt::from_any(PriorityOpt::Interrupt(v).into_any()),
            PriorityOpt::Interrupt(v)
        );
    }
}

#[test]
fn absent_priority_packs_as_invalid() {
    assert_eq!(PriorityOpt::none().into_any(), INVALID_PRIORITY);
    assert_eq!(PriorityOpt::from_any(-1), PriorityOpt::Absent);
    assert!(PriorityOpt::none().is_none());
    assert!(!PriorityOpt::none().is_some());
    assert_eq!(PriorityOpt::none().priority(), None);
}

#[test]
fn interrupt_priorities_are_above_thread_priorities() {
    assert!(Priority::Thread(255) < Priority::Interrupt(0));
    assert!(Priority::Thread(1) < Priority::Thread(2));
    assert!(Priority::Interrupt(2) > Priority::Interrupt(1));
    assert!(PriorityOpt::Thread(255) < PriorityOpt::Interrupt(0));
    assert_eq!(PriorityOpt::Absent.partial_cmp(&PriorityOpt::Thread(0)), None);
}

#[test]
fn max_takes_the_higher_priority() {
    assert_eq!(Priority::Thread(3).max(Priority::Thread(7)), Priority::Thread(7));
    assert_eq!(Priority::Thread(200).max(Priority::Interrupt(0)), Priority::Interrupt(0));
    assert_eq!(Priority::Interrupt(4).max(Priority::Thread(9)), Priority::Interrupt(4));
    assert_eq!(Priority::Thread(3).max_valid(PriorityOpt::Absent), Priority::Thread(3));
    assert_eq!(Priority::Thread(3).max_valid(PriorityOpt::Thread(8)), Priority::Thread(8));
    assert_eq!(PriorityOpt::Absent.max(PriorityOpt::Thread(1)), PriorityOpt::Thread(1));
    assert_eq!(PriorityOpt::Interrupt(1).max(PriorityOpt::Absent), PriorityOpt::Interrupt(1));
    assert_eq!(maxu8(4, 9), 9);
    assert_eq!(maxu8(9, 4), 9);
}

#[test]
fn succ_steps_up_and_saturates() {
    assert_eq!(Priority::Thread(4).succ(), Priority::Thread(5));
    assert_eq!(Priority::Thread(255).succ(), Priority::Interrupt(0));
    assert_eq!(Priority::Interrupt(255).succ(), Priority::Interrupt(255));
    assert_eq!(PriorityOpt::Absent.succ(), PriorityOpt::Absent);
    assert_eq!(PriorityOpt::Thread(255).succ(), PriorityOpt::Interrupt(0));
}

#[test]
fn priority_kinds_and_values() {
    assert!(Priority::Interrupt(1).is_interrupt());
    assert!(Priority::Thread(1).is_thread());
    assert_eq!(Priority::Interrupt(6).get_value(), 6);
    assert_eq!(PriorityOpt::some(Priority::Thread(2)), PriorityOpt::Thread(2));
    assert_eq!(PriorityOpt::from(Priority::Interrupt(2)), PriorityOpt::Interrupt(2));
    assert_eq!(PriorityOpt::Absent.unwrap_or_default(Priority::Thread(9)), Priority::Thread(9));
    assert_eq!(PriorityOpt::Thread(1).unwrap_or_default(Priority::Thread(9)), Priority::Thread(1));
}

#[test]
fn atomic_priority_stores_and_loads_packed_values() {
    let a = AtomicPriority::new(Priority::Thread(4));
    assert_eq!(a.load(Ordering::Relaxed), Priority::Thread(4));
    assert!(a.is_thread());
    a.store(Priority::Interrupt(2), Ordering::Relaxed);
    assert!(a.is_interrupt());
    assert_eq!(a.load(Ordering::Acquire), Priority::Interrupt(2));
    assert_eq!(a.swap(Priority::Thread(9), Ordering::AcqRel), Priority::Interrupt(2));
    assert_eq!(a.load(Ordering::SeqCst), Priority::Thread(9));
}

#[test]
fn atomic_priority_compare_exchange() {
    let a = AtomicPriority::thread(3);
    assert_eq!(
        a.compare_exchange(Priority::Thread(3), Priority::Thread(5), Ordering::SeqCst, Ordering::SeqCst),
        Ok(Priority::Thread(3))
    );
    assert_eq!(
        a.compare_exchange(Priority::Thread(3), Priority::Thread(7), Ordering::SeqCst, Ordering::SeqCst),
        Err(Priority::Thread(5))
    );
    assert_eq!(a.load(Ordering::Relaxed), Priority::Thread(5));
}

#[test]
fn atomic_priority_opt_holds_absent() {
    let a = AtomicPriorityOpt::new(PriorityOpt::Absent);
    assert_eq!(a.load(Ordering::Relaxed), PriorityOpt::Absent);
    a.store(PriorityOpt::Interrupt(1), Ordering::Release);
    assert_eq!(a.swap(PriorityOpt::Absent, Ordering::Relaxed), PriorityOpt::Interrupt(1));
    assert_eq!(
        a.compare_exchange(PriorityOpt::Absent, PriorityOpt::Thread(2), Ordering::SeqCst, Ordering::Relaxed),
        Ok(PriorityOpt::Absent)
    );
    assert_eq!(a.load(Ordering::Relaxed), PriorityOpt::Thread(2));
}

#[test]
fn optional_priority_converts_back_when_present() {
    assert_eq!(Priority::try_from(PriorityOpt::Thread(3)), Ok(Priority::Thread(3)));
    assert_eq!(Priority::try_from(PriorityOpt::Interrupt(1)), Ok(Priority::Interrupt(1)));
    assert_eq!(Priority::try_from(PriorityOpt::Absent), Err(()));
}
