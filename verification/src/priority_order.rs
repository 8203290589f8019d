//! The order of priorities: every thread priority is below every interrupt
//! priority; within a kind, the higher level is the higher priority. An absent
//! priority is not comparable with any other.
use crate::priority::{rank, spec_priority, spec_some, Priority, PriorityOpt};
use core::cmp::Ordering;
use vstd::prelude::*;
use vstd::std_specs::cmp::PartialOrdSpecImpl;
use vstd::std_specs::convert::{FromSpecImpl, TryFromSpecImpl};

verus! {

/// The comparison of two positions on the priority scale.
pub open spec fn compare_ranks(a: int, b: int) -> Ordering {
    if a < b {
        Ordering::Less
    } else if a == b {
        Ordering::Equal
    } else {
        Ordering::Greater
    }
}

fn compare_levels(a: u8, b: u8) -> (r: Ordering)
    ensures
        r == (if a < b {
            Ordering::Less
        } else if a == b {
            Ordering::Equal
        } else {
            Ordering::Greater
        }),
{
    if a < b {
        Ordering::Less
    } else if a == b {
        Ordering::Equal
    } else {
        Ordering::Greater
    }
}

impl PartialOrd for Priority {
    fn partial_cmp(&self, other: &Self) -> (r: Option<Ordering>) {
        match (self, other) {
            (Priority::Thread(p1), Priority::Thread(p2)) => Some(compare_levels(*p1, *p2)),
            (Priority::Interrupt(p1), Priority::Interrupt(p2)) => Some(compare_levels(*p1, *p2)),
            (Priority::Thread(_), Priority::Interrupt(_)) => Some(Ordering::Less),
            (Priority::Interrupt(_), Priority::Thread(_)) => Some(Ordering::Greater),
        }
    }
}

impl PartialOrdSpecImpl for Priority {
    open spec fn obeys_partial_cmp_spec() -> bool {
        true
    }

    open spec fn partial_cmp_spec(&self, other: &Self) -> Option<Ordering> {
        Some(compare_ranks(rank(*self), rank(*other)))
    }
}

impl PartialOrd for PriorityOpt {
    fn partial_cmp(&self, other: &Self) -> (r: Option<Ordering>) {
        match (self, other) {
            (PriorityOpt::Thread(p1), PriorityOpt::Thread(p2)) => Some(compare_levels(*p1, *p2)),
            (PriorityOpt::Interrupt(p1), PriorityOpt::Interrupt(p2)) => Some(
                compare_levels(*p1, *p2),
            ),
            (PriorityOpt::Thread(_), PriorityOpt::Interrupt(_)) => Some(Ordering::Less),
            (PriorityOpt::Interrupt(_), PriorityOpt::Thread(_)) => Some(Ordering::Greater),
            (PriorityOpt::Absent, _) => None,
            (_, PriorityOpt::Absent) => None,
        }
    }
}

impl PartialOrdSpecImpl for PriorityOpt {
    open spec fn obeys_partial_cmp_spec() -> bool {
        true
    }

    open spec fn partial_cmp_spec(&self, other: &Self) -> Option<Ordering> {
        match (spec_priority(*self), spec_priority(*other)) {
            (Some(a), Some(b)) => Some(compare_ranks(rank(a), rank(b))),
            _ => None,
        }
    }
}

impl From<Priority> for PriorityOpt {
    fn from(prio: Priority) -> (r: PriorityOpt) {
        match prio {
            Priority::Thread(p) => PriorityOpt::Thread(p),
            Priority::Interrupt(p) => PriorityOpt::Interrupt(p),
        }
    }
}

impl FromSpecImpl<Priority> for PriorityOpt {
    open spec fn obeys_from_spec() -> bool {
        true
    }

    open spec fn from_spec(v: Priority) -> PriorityOpt {
        spec_some(v)
    }
}

impl TryFrom<PriorityOpt> for Priority {
    type Error = ();

    fn try_from(prio: PriorityOpt) -> (r: Result<Priority, ()>) {
        match prio {
            PriorityOpt::Thread(p) => Ok(Priority::Thread(p)),
            PriorityOpt::Interrupt(p) => Ok(Priority::Interrupt(p)),
            PriorityOpt::Absent => Err(()),
        }
    }
}

impl TryFromSpecImpl<PriorityOpt> for Priority {
    open spec fn obeys_try_from_spec() -> bool {
        true
    }

    open spec fn try_from_spec(v: PriorityOpt) -> Result<Priority, ()> {
        match spec_priority(v) {
            Some(p) => Ok(p),
            None => Err(()),
        }
    }
}

} // verus!
