//! Thread and interrupt priorities.
//!
//! Every thread priority is below every interrupt priority. A priority can be
//! packed into an `i16` ("any priority"): thread priorities are stored as their
//! value, interrupt priorities with bit 14 set, and the absence of a priority
//! as `-1`.
use vstd::prelude::*;

verus! {

pub type ThreadPriority = u8;

pub type InterruptPriority = u8;

pub type AnyPriority = i16;

/// The bit that marks an interrupt priority in its packed form.
pub const INTERRUPT_BIT: i16 = 16384i16;

/// The packed form of "no priority".
pub const INVALID_PRIORITY: i16 = -1i16;

/// The larger of two `u8` values.
pub fn maxu8(left: u8, right: u8) -> (r: u8)
    ensures
        r == (if left > right { left } else { right }),
        r >= left,
        r >= right,
        r == left || r == right,
{
    if left > right {
        left
    } else {
        right
    }
}

#[derive(Copy, Clone, Debug, PartialEq, Eq, Structural, Ord)]
pub enum Priority {
    Thread(ThreadPriority),
    Interrupt(InterruptPriority),
}

/// Like `Priority`, but with an additional `Absent` variant for the absence of a priority.
#[derive(Copy, Clone, Debug, PartialEq, Eq, Structural)]
pub enum PriorityOpt {
    Absent,
    Thread(ThreadPriority),
    Interrupt(InterruptPriority),
}

/// The position of a priority on the single scale on which all thread
/// priorities lie below all interrupt priorities.
pub open spec fn rank(p: Priority) -> int {
    match p {
        Priority::Thread(v) => v as int,
        Priority::Interrupt(v) => 256 + v,
    }
}

/// The priority at a given position of the scale.
pub open spec fn from_rank(r: int) -> Priority {
    if r < 256 {
        Priority::Thread(r as u8)
    } else {
        Priority::Interrupt((r - 256) as u8)
    }
}

/// The higher of two priorities.
pub open spec fn spec_max(a: Priority, b: Priority) -> Priority {
    if rank(a) >= rank(b) {
        a
    } else {
        b
    }
}

/// The packed form of a priority.
pub open spec fn spec_into_any(p: Priority) -> i16 {
    match p {
        Priority::Thread(v) => v as i16,
        Priority::Interrupt(v) => (v + 16384) as i16,
    }
}

/// The priority that a packed value denotes: bit 14 selects an interrupt
/// priority, the low byte (of the value without bit 14) gives its level.
pub open spec fn spec_from_any(v: i16) -> Priority {
    if v & 16384i16 != 0 {
        Priority::Interrupt((v & !16384i16) as u8)
    } else {
        Priority::Thread(v as u8)
    }
}

/// The packed form of an optional priority.
pub open spec fn spec_opt_into_any(p: PriorityOpt) -> i16 {
    match p {
        PriorityOpt::Absent => -1i16,
        PriorityOpt::Thread(v) => v as i16,
        PriorityOpt::Interrupt(v) => (v + 16384) as i16,
    }
}

/// The optional priority that a packed value denotes.
pub open spec fn spec_opt_from_any(v: i16) -> PriorityOpt {
    if v == -1i16 {
        PriorityOpt::Absent
    } else if v & 16384i16 != 0 {
        PriorityOpt::Interrupt((v & !16384i16) as u8)
    } else {
        PriorityOpt::Thread(v as u8)
    }
}

/// The optional priority that holds `p`.
pub open spec fn spec_some(p: Priority) -> PriorityOpt {
    match p {
        Priority::Thread(v) => PriorityOpt::Thread(v),
        Priority::Interrupt(v) => PriorityOpt::Interrupt(v),
    }
}

/// The priority held by an optional priority, if any.
pub open spec fn spec_priority(p: PriorityOpt) -> Option<Priority> {
    match p {
        PriorityOpt::Absent => None,
        PriorityOpt::Thread(v) => Some(Priority::Thread(v)),
        PriorityOpt::Interrupt(v) => Some(Priority::Interrupt(v)),
    }
}

/// The higher of two optional priorities, where an absent priority is below
/// every present one.
pub open spec fn spec_opt_max(a: PriorityOpt, b: PriorityOpt) -> PriorityOpt {
    match (spec_priority(a), spec_priority(b)) {
        (None, _) => b,
        (_, None) => a,
        (Some(x), Some(y)) => spec_some(spec_max(x, y)),
    }
}

/// The higher of a priority and an optional priority.
pub open spec fn spec_max_valid(a: Priority, b: PriorityOpt) -> Priority {
    match spec_priority(b) {
        None => a,
        Some(y) => spec_max(a, y),
    }
}

/// The next higher priority, saturating at the highest interrupt priority.
pub open spec fn spec_succ(p: Priority) -> Priority {
    if rank(p) < 511 {
        from_rank(rank(p) + 1)
    } else {
        p
    }
}

impl Priority {
    pub fn thread(prio: ThreadPriority) -> (r: Priority)
        ensures
            r == Priority::Thread(prio),
    {
        Priority::Thread(prio)
    }

    pub fn interrupt(prio: InterruptPriority) -> (r: Priority)
        ensures
            r == Priority::Interrupt(prio),
    {
        Priority::Interrupt(prio)
    }

    pub fn is_interrupt(&self) -> (r: bool)
        ensures
            r == (*self is Interrupt),
    {
        match self {
            Priority::Interrupt(_) => true,
            Priority::Thread(_) => false,
        }
    }

    pub fn is_thread(&self) -> (r: bool)
        ensures
            r == (*self is Thread),
    {
        match self {
            Priority::Thread(_) => true,
            Priority::Interrupt(_) => false,
        }
    }

    pub fn get_value(&self) -> (r: u8)
        ensures
            r == (match *self {
                Priority::Thread(p) => p,
                Priority::Interrupt(p) => p,
            }),
    {
        match self {
            Priority::Thread(prio) => *prio,
            Priority::Interrupt(prio) => *prio,
        }
    }

    pub fn succ(self) -> (r: Priority)
        ensures
            r == spec_succ(self),
            rank(r) == (if rank(self) < 511 { rank(self) + 1 } else { 511 }),
    {
        match self {
            Priority::Thread(prio) => {
                if prio < 255 {
                    Priority::Thread(prio + 1)
                } else {
                    Priority::Interrupt(0)
                }
            },
            Priority::Interrupt(prio) => {
                if prio < 255 {
                    Priority::Interrupt(prio + 1)
                } else {
                    Priority::Interrupt(prio)
                }
            },
        }
    }

    pub fn max(self, other: Priority) -> (r: Priority)
        ensures
            r == spec_max(self, other),
    {
        match (self, other) {
            (Priority::Thread(p1), Priority::Thread(p2)) => Priority::Thread(maxu8(p1, p2)),
            (Priority::Interrupt(p1), Priority::Interrupt(p2)) => Priority::Interrupt(
                maxu8(p1, p2),
            ),
            (Priority::Thread(_), Priority::Interrupt(_)) => other,
            (Priority::Interrupt(_), Priority::Thread(_)) => self,
        }
    }

    pub fn max_valid(self, other: PriorityOpt) -> (r: Priority)
        ensures
            r == spec_max_valid(self, other),
    {
        let other = match other.priority() {
            Some(prio) => prio,
            None => return self,
        };
        self.max(other)
    }

    pub fn into_any(self) -> (r: AnyPriority)
        ensures
            r == spec_into_any(self),
    {
        match self {
            Priority::Thread(prio) => prio as i16,
            Priority::Interrupt(prio) => {
                let v = prio as i16;
                assert((v | 16384i16) == v + 16384) by (bit_vector)
                    requires
                        0 <= v < 256,
                ;
                v | INTERRUPT_BIT
            },
        }
    }

    pub fn from_any(value: AnyPriority) -> (r: Priority)
        ensures
            r == spec_from_any(value),
    {
        if (value & INTERRUPT_BIT) != 0 {
            Priority::Interrupt((value & !INTERRUPT_BIT) as InterruptPriority)
        } else {
            Priority::Thread(value as ThreadPriority)
        }
    }
}

impl PriorityOpt {
    pub fn none() -> (r: PriorityOpt)
        ensures
            r == PriorityOpt::Absent,
    {
        PriorityOpt::Absent
    }

    pub fn thread(prio: ThreadPriority) -> (r: PriorityOpt)
        ensures
            r == PriorityOpt::Thread(prio),
    {
        PriorityOpt::Thread(prio)
    }

    pub fn interrupt(prio: InterruptPriority) -> (r: PriorityOpt)
        ensures
            r == PriorityOpt::Interrupt(prio),
    {
        PriorityOpt::Interrupt(prio)
    }

    pub fn some(prio: Priority) -> (r: PriorityOpt)
        ensures
            r == spec_some(prio),
    {
        match prio {
            Priority::Thread(p) => PriorityOpt::Thread(p),
            Priority::Interrupt(p) => PriorityOpt::Interrupt(p),
        }
    }

    pub fn is_interrupt(&self) -> (r: bool)
        ensures
            r == (*self is Interrupt),
    {
        match self {
            PriorityOpt::Interrupt(_) => true,
            _ => false,
        }
    }

    pub fn is_thread(&self) -> (r: bool)
        ensures
            r == (*self is Thread),
    {
        match self {
            PriorityOpt::Thread(_) => true,
            _ => false,
        }
    }

    pub fn is_some(&self) -> (r: bool)
        ensures
            r == !(*self is Absent),
    {
        match self {
            PriorityOpt::Absent => false,
            _ => true,
        }
    }

    pub fn is_none(&self) -> (r: bool)
        ensures
            r == (*self is Absent),
    {
        match self {
            PriorityOpt::Absent => true,
            _ => false,
        }
    }

    pub fn priority(&self) -> (r: Option<Priority>)
        ensures
            r == spec_priority(*self),
    {
        match self {
            PriorityOpt::Thread(prio) => Some(Priority::Thread(*prio)),
            PriorityOpt::Interrupt(prio) => Some(Priority::Interrupt(*prio)),
            PriorityOpt::Absent => None,
        }
    }

    pub fn get_value(&self) -> (r: u8)
        ensures
            r == (match *self {
                PriorityOpt::Thread(p) => p,
                PriorityOpt::Interrupt(p) => p,
                PriorityOpt::Absent => 0u8,
            }),
    {
        match self {
            PriorityOpt::Thread(prio) => *prio,
            PriorityOpt::Interrupt(prio) => *prio,
            PriorityOpt::Absent => 0,
        }
    }

    pub fn succ(self) -> (r: PriorityOpt)
        ensures
            r == (match spec_priority(self) {
                None => PriorityOpt::Absent,
                Some(p) => spec_some(spec_succ(p)),
            }),
    {
        match self {
            PriorityOpt::Thread(prio) => {
                if prio < 255 {
                    PriorityOpt::Thread(prio + 1)
                } else {
                    PriorityOpt::some(Priority::Interrupt(0))
                }
            },
            PriorityOpt::Interrupt(prio) => {
                if prio < 255 {
                    PriorityOpt::Interrupt(prio + 1)
                } else {
                    PriorityOpt::Interrupt(prio)
                }
            },
            PriorityOpt::Absent => PriorityOpt::Absent,
        }
    }

    pub fn max(self, other: PriorityOpt) -> (r: PriorityOpt)
        ensures
            r == spec_opt_max(self, other),
    {
        match (self, other) {
            (PriorityOpt::Thread(p1), PriorityOpt::Thread(p2)) => PriorityOpt::Thread(
                maxu8(p1, p2),
            ),
            (PriorityOpt::Interrupt(p1), PriorityOpt::Interrupt(p2)) => PriorityOpt::Interrupt(
                maxu8(p1, p2),
            ),
            (PriorityOpt::Thread(_), PriorityOpt::Interrupt(_)) => other,
            (PriorityOpt::Interrupt(_), PriorityOpt::Thread(_)) => self,
            (PriorityOpt::Absent, _) => other,
            (_, PriorityOpt::Absent) => self,
        }
    }

    pub fn into_any(self) -> (r: AnyPriority)
        ensures
            r == spec_opt_into_any(self),
    {
        match self {
            PriorityOpt::Thread(prio) => prio as i16,
            PriorityOpt::Interrupt(prio) => {
                let v = prio as i16;
                assert((v | 16384i16) == v + 16384) by (bit_vector)
                    requires
                        0 <= v < 256,
                ;
                v | INTERRUPT_BIT
            },
            PriorityOpt::Absent => INVALID_PRIORITY,
        }
    }

    pub fn from_any(value: AnyPriority) -> (r: PriorityOpt)
        ensures
            r == spec_opt_from_any(value),
    {
        if value == INVALID_PRIORITY {
            PriorityOpt::Absent
        } else if (value & INTERRUPT_BIT) != 0 {
            PriorityOpt::Interrupt((value & !INTERRUPT_BIT) as InterruptPriority)
        } else {
            PriorityOpt::Thread(value as ThreadPriority)
        }
    }

    pub fn unwrap_or_default(self, default: Priority) -> (r: Priority)
        ensures
            r == (match spec_priority(self) {
                None => default,
                Some(p) => p,
            }),
    {
        match self {
            PriorityOpt::Absent => default,
            PriorityOpt::Thread(p) => Priority::Thread(p),
            PriorityOpt::Interrupt(p) => Priority::Interrupt(p),
        }
    }
}

// ---------------------------------------------------------------------------
// Laws of the priority scale and its packed form.
/// Unpacking the packed form of a priority gives the priority back.
pub proof fn lemma_any_roundtrip(p: Priority)
    ensures
        spec_from_any(spec_into_any(p)) == p,
{
    match p {
        Priority::Thread(v) => {
            let x = v as i16;
            assert(x & 16384i16 == 0 && (x as u8) == v) by (bit_vector)
                requires
                    x == v as i16,
            ;
        },
        Priority::Interrupt(v) => {
            let x = (v + 16384) as i16;
            assert(x & 16384i16 != 0 && ((x & !16384i16) as u8) == v) by (bit_vector)
                requires
                    x == (v + 16384) as i16,
            ;
        },
    }
}

/// Unpacking the packed form of an optional priority gives it back.
pub proof fn lemma_opt_any_roundtrip(p: PriorityOpt)
    ensures
        spec_opt_from_any(spec_opt_into_any(p)) == p,
{
    match p {
        PriorityOpt::Absent => {},
        PriorityOpt::Thread(v) => {
            let x = v as i16;
            assert(x != -1i16 && x & 16384i16 == 0 && (x as u8) == v) by (bit_vector)
                requires
                    x == v as i16,
            ;
        },
        PriorityOpt::Interrupt(v) => {
            let x = (v + 16384) as i16;
            assert(x != -1i16 && x & 16384i16 != 0 && ((x & !16384i16) as u8) == v)
                by (bit_vector)
                requires
                    x == (v + 16384) as i16,
            ;
        },
    }
}

/// Every thread priority is below every interrupt priority, and within each
/// kind the level decides.
pub proof fn lemma_rank_order(a: Priority, b: Priority)
    ensures
        (a is Thread && b is Interrupt) ==> rank(a) < rank(b),
        rank(a) == rank(b) <==> a == b,
        0 <= rank(a) < 512,
        from_rank(rank(a)) == a,
{
}

/// `max` is an upper bound of both arguments and is one of them; it is
/// commutative and associative.
pub proof fn lemma_max_laws(a: Priority, b: Priority, c: Priority)
    ensures
        rank(spec_max(a, b)) >= rank(a),
        rank(spec_max(a, b)) >= rank(b),
        spec_max(a, b) == a || spec_max(a, b) == b,
        spec_max(a, b) == spec_max(b, a),
        spec_max(spec_max(a, b), c) == spec_max(a, spec_max(b, c)),
        spec_max(a, a) == a,
{
    lemma_rank_order(a, b);
    lemma_rank_order(b, c);
    lemma_rank_order(a, c);
}

/// `max` of optional priorities treats an absent priority as the lowest one and
/// agrees with `max` on present priorities; it is commutative.
pub proof fn lemma_opt_max_laws(a: PriorityOpt, b: PriorityOpt)
    ensures
        spec_opt_max(a, PriorityOpt::Absent) == a,
        spec_opt_max(PriorityOpt::Absent, b) == b,
        spec_opt_max(a, b) == spec_opt_max(b, a),
        (spec_priority(a) is Some && spec_priority(b) is Some) ==> spec_priority(
            spec_opt_max(a, b),
        ) == Some(spec_max(spec_priority(a).unwrap(), spec_priority(b).unwrap())),
{
    match (spec_priority(a), spec_priority(b)) {
        (Some(x), Some(y)) => {
            lemma_max_laws(x, y, y);
        },
        _ => {},
    }
}

/// `succ` moves one step up the scale, from the highest thread priority to the
/// lowest interrupt priority, and stops at the highest interrupt priority.
pub proof fn lemma_succ_step(p: Priority)
    ensures
        rank(p) < 511 ==> rank(spec_succ(p)) == rank(p) + 1,
        rank(p) == 511 ==> spec_succ(p) == p,
        p == Priority::Thread(255) ==> spec_succ(p) == Priority::Interrupt(0),
{
}

} // verus!
