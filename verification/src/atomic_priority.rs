//! Priorities held in an atomic 16-bit cell, in their packed form.
//!
//! The cell may be written by other execution contexts at any time, so a read
//! says nothing about an earlier write; what is stated is how each operation
//! packs what it writes and unpacks what it reads.
use crate::priority::{
    spec_from_any, spec_into_any, spec_opt_from_any, spec_opt_into_any, AnyPriority,
    InterruptPriority, Priority, PriorityOpt, ThreadPriority, INTERRUPT_BIT,
};
use portable_atomic::AtomicI16;
use portable_atomic::Ordering;
use vstd::prelude::*;

verus! {

#[verifier::external_type_specification]
#[verifier::external_body]
pub struct ExAtomicI16(portable_atomic::AtomicI16);

/// Whether a memory ordering is accepted by an atomic load.
pub open spec fn load_ordering_ok(order: Ordering) -> bool {
    !(order is Release) && !(order is AcqRel)
}

/// Whether a memory ordering is accepted by an atomic store.
pub open spec fn store_ordering_ok(order: Ordering) -> bool {
    !(order is Acquire) && !(order is AcqRel)
}

/// `portable_atomic::AtomicI16::new`: creates a cell holding `v`. Nothing is
/// stated of the cell, whose content Verus does not track.
#[verifier::external_body]
fn atomic_new(v: i16) -> (r: AtomicI16) {
    AtomicI16::new(v)
}

/// `portable_atomic::AtomicI16::load`: reads the cell. The value depends on
/// every other context's writes, so nothing is stated of it. Panics on a
/// `Release` or `AcqRel` ordering, which `requires` leaves out.
#[verifier::external_body]
fn atomic_load(a: &AtomicI16, order: Ordering) -> (r: i16)
    requires
        load_ordering_ok(order),
{
    a.load(order)
}

/// `portable_atomic::AtomicI16::store`: writes `v` to the cell. Panics on an
/// `Acquire` or `AcqRel` ordering, which `requires` leaves out.
#[verifier::external_body]
fn atomic_store(a: &AtomicI16, v: i16, order: Ordering)
    requires
        store_ordering_ok(order),
{
    a.store(v, order)
}

/// `portable_atomic::AtomicI16::swap`: writes `v` and returns the previous
/// value, which depends on other contexts and is not stated.
#[verifier::external_body]
fn atomic_swap(a: &AtomicI16, v: i16, order: Ordering) -> (r: i16) {
    a.swap(v, order)
}

/// `portable_atomic::AtomicI16::compare_exchange`: writes `new` if the cell
/// holds `current`. Returns `Ok` with the previous value, which then equals
/// `current`, or `Err` with the value found, which then differs from
/// `current`. Panics on a `Release` or `AcqRel` failure ordering, which
/// `requires` leaves out.
#[verifier::external_body]
fn atomic_compare_exchange(
    a: &AtomicI16,
    current: i16,
    new: i16,
    success: Ordering,
    failure: Ordering,
) -> (r: Result<i16, i16>)
    requires
        load_ordering_ok(failure),
    ensures
        match r {
            Ok(prev) => prev == current,
            Err(prev) => prev != current,
        },
{
    a.compare_exchange(current, new, success, failure)
}

fn interrupt_bit_set(v: i16) -> (r: bool)
    ensures
        r == (v & 16384i16 != 0),
{
    (v & INTERRUPT_BIT) != 0
}

pub struct AtomicPriority(AtomicI16);

impl AtomicPriority {
    /// A cell holding the packed form of `prio`.
    pub fn new(prio: Priority) -> (r: AtomicPriority) {
        AtomicPriority::any(prio.into_any())
    }

    /// A cell holding the packed value `prio`.
    pub fn any(prio: AnyPriority) -> (r: AtomicPriority) {
        AtomicPriority(atomic_new(prio))
    }

    /// A cell holding the packed form of the thread priority `prio`.
    pub fn thread(prio: ThreadPriority) -> (r: AtomicPriority) {
        AtomicPriority(atomic_new(Priority::thread(prio).into_any()))
    }

    /// A cell holding the packed form of the interrupt priority `prio`.
    pub fn interrupt(prio: InterruptPriority) -> (r: AtomicPriority) {
        AtomicPriority(atomic_new(Priority::interrupt(prio).into_any()))
    }

    /// Whether the value read has the interrupt bit set.
    pub fn is_interrupt(&self) -> (r: bool) {
        interrupt_bit_set(atomic_load(&self.0, Ordering::Relaxed))
    }

    /// Whether the value read has the interrupt bit clear.
    pub fn is_thread(&self) -> (r: bool) {
        !interrupt_bit_set(atomic_load(&self.0, Ordering::Relaxed))
    }

    /// The priority that the value read denotes.
    pub fn load(&self, ordering: Ordering) -> (r: Priority)
        requires
            load_ordering_ok(ordering),
        ensures
            exists|v: i16| r == spec_from_any(v),
    {
        Priority::from_any(atomic_load(&self.0, ordering))
    }

    /// Writes the packed form of `prio`.
    pub fn store(&self, prio: Priority, ordering: Ordering)
        requires
            store_ordering_ok(ordering),
    {
        atomic_store(&self.0, prio.into_any(), ordering)
    }

    /// Writes the packed form of `prio` and returns the priority that the
    /// previous value denotes.
    pub fn swap(&self, prio: Priority, ordering: Ordering) -> (r: Priority)
        ensures
            exists|v: i16| r == spec_from_any(v),
    {
        Priority::from_any(atomic_swap(&self.0, prio.into_any(), ordering))
    }

    /// Replaces `current` by `new` if the cell holds the packed form of
    /// `current`; on success returns `current`.
    pub fn compare_exchange(
        &self,
        current: Priority,
        new: Priority,
        success: Ordering,
        failure: Ordering,
    ) -> (r: Result<Priority, Priority>)
        requires
            load_ordering_ok(failure),
        ensures
            r is Ok ==> r == Ok::<Priority, Priority>(current),
            r matches Err(p) ==> exists|v: i16| v != spec_into_any(current) && p == spec_from_any(v),
    {
        let res = atomic_compare_exchange(
            &self.0,
            current.into_any(),
            new.into_any(),
            success,
            failure,
        );
        match res {
            Ok(x) => {
                proof {
                    crate::priority::lemma_any_roundtrip(current);
                }
                Ok(Priority::from_any(x))
            },
            Err(e) => Err(Priority::from_any(e)),
        }
    }
}

pub struct AtomicPriorityOpt(AtomicI16);

impl AtomicPriorityOpt {
    /// A cell holding the packed form of `prio`.
    pub fn new(prio: PriorityOpt) -> (r: AtomicPriorityOpt) {
        AtomicPriorityOpt(atomic_new(prio.into_any()))
    }

    /// A cell holding the packed value `prio`.
    pub fn any(prio: AnyPriority) -> (r: AtomicPriorityOpt) {
        AtomicPriorityOpt(atomic_new(prio))
    }

    /// A cell holding the packed form of the thread priority `prio`.
    pub fn thread(prio: ThreadPriority) -> (r: AtomicPriorityOpt) {
        AtomicPriorityOpt(atomic_new(PriorityOpt::thread(prio).into_any()))
    }

    /// A cell holding the packed form of the interrupt priority `prio`.
    pub fn interrupt(prio: InterruptPriority) -> (r: AtomicPriorityOpt) {
        AtomicPriorityOpt(atomic_new(PriorityOpt::interrupt(prio).into_any()))
    }

    /// Whether the value read has the interrupt bit set.
    pub fn is_interrupt(&self) -> (r: bool) {
        interrupt_bit_set(atomic_load(&self.0, Ordering::Relaxed))
    }

    /// Whether the value read has the interrupt bit clear.
    pub fn is_thread(&self) -> (r: bool) {
        !interrupt_bit_set(atomic_load(&self.0, Ordering::Relaxed))
    }

    /// The optional priority that the value read denotes.
    pub fn load(&self, ordering: Ordering) -> (r: PriorityOpt)
        requires
            load_ordering_ok(ordering),
        ensures
            exists|v: i16| r == spec_opt_from_any(v),
    {
        PriorityOpt::from_any(atomic_load(&self.0, ordering))
    }

    /// Writes the packed form of `prio`.
    pub fn store(&self, prio: PriorityOpt, ordering: Ordering)
        requires
            store_ordering_ok(ordering),
    {
        atomic_store(&self.0, prio.into_any(), ordering)
    }

    /// Writes the packed form of `prio` and returns the optional priority that
    /// the previous value denotes.
    pub fn swap(&self, prio: PriorityOpt, ordering: Ordering) -> (r: PriorityOpt)
        ensures
            exists|v: i16| r == spec_opt_from_any(v),
    {
        PriorityOpt::from_any(atomic_swap(&self.0, prio.into_any(), ordering))
    }

    /// Replaces `current` by `new` if the cell holds the packed form of
    /// `current`; on success returns `current`.
    pub fn compare_exchange(
        &self,
        current: PriorityOpt,
        new: PriorityOpt,
        success: Ordering,
        failure: Ordering,
    ) -> (r: Result<PriorityOpt, PriorityOpt>)
        requires
            load_ordering_ok(failure),
        ensures
            r is Ok ==> r == Ok::<PriorityOpt, PriorityOpt>(current),
            r matches Err(p) ==> exists|v: i16|
                v != spec_opt_into_any(current) && p == spec_opt_from_any(v),
    {
        let res = atomic_compare_exchange(
            &self.0,
            current.into_any(),
            new.into_any(),
            success,
            failure,
        );
        match res {
            Ok(x) => {
                proof {
                    crate::priority::lemma_opt_any_roundtrip(current);
                }
                Ok(PriorityOpt::from_any(x))
            },
            Err(e) => Err(PriorityOpt::from_any(e)),
        }
    }
}

} // verus!
