//! Combinators over polled outcomes: join, select and timeout.
//!
//! A combinator is polled with the outcomes of its children for this round;
//! the executor polls a child only while the combinator still needs it (see
//! `needs_a` and friends).
use crate::time::{Duration, Instant};
use vstd::prelude::*;

verus! {

/// The outcome of polling a task once.
pub enum Polled<T> {
    Ready(T),
    Pending,
}

/// Result of `select`: whichever branch finished first.
pub enum Either<A, B> {
    First(A),
    Second(B),
}

/// Result of `select3`.
pub enum Either3<A, B, C> {
    First(A),
    Second(B),
    Third(C),
}

/// The deadline of a `timeout` passed before its task completed.
#[derive(Copy, Clone, Debug, PartialEq, Eq, Structural)]
pub struct Elapsed;

/// The outputs a join has collected so far.
pub struct Join<A, B> {
    pub a_out: Option<A>,
    pub b_out: Option<B>,
}

/// Start joining two tasks: nothing collected yet.
pub fn join<A, B>() -> (r: Join<A, B>)
    ensures
        r.a_out is None,
        r.b_out is None,
{
    Join { a_out: None, b_out: None }
}

/// What a child's poll leaves in its slot: a slot already filled keeps its
/// value; an empty one takes the output if the child is ready.
pub open spec fn collected<T>(slot: Option<T>, polled: Polled<T>) -> Option<T> {
    match slot {
        Some(v) => Some(v),
        None => match polled {
            Polled::Ready(v) => Some(v),
            Polled::Pending => None,
        },
    }
}

fn collect<T>(slot: &mut Option<T>, polled: Polled<T>)
    ensures
        *final(slot) == collected(*old(slot), polled),
{
    if slot.is_none() {
        if let Polled::Ready(v) = polled {
            *slot = Some(v);
        }
    }
}

impl<A, B> Join<A, B> {
    /// The first task has not completed yet and must be polled.
    pub fn needs_a(&self) -> (r: bool)
        ensures
            r == self.a_out is None,
    {
        self.a_out.is_none()
    }

    /// The second task has not completed yet and must be polled.
    pub fn needs_b(&self) -> (r: bool)
        ensures
            r == self.b_out is None,
    {
        self.b_out.is_none()
    }

    /// Record this round's outcomes and complete once both outputs are in.
    pub fn poll(&mut self, a: Polled<A>, b: Polled<B>) -> (r: Polled<(A, B)>)
        ensures
            ({
                let na = collected(old(self).a_out, a);
                let nb = collected(old(self).b_out, b);
                if na is Some && nb is Some {
                    &&& r == Polled::Ready((na->0, nb->0))
                    &&& final(self).a_out is None
                    &&& final(self).b_out is None
                } else {
                    &&& r is Pending
                    &&& final(self).a_out == na
                    &&& final(self).b_out == nb
                }
            }),
    {
        collect(&mut self.a_out, a);
        collect(&mut self.b_out, b);
        if self.a_out.is_some() && self.b_out.is_some() {
            let x = self.a_out.take().unwrap();
            let y = self.b_out.take().unwrap();
            Polled::Ready((x, y))
        } else {
            Polled::Pending
        }
    }
}

/// The outputs a three-way join has collected so far.
pub struct Join3<A, B, C> {
    pub a_out: Option<A>,
    pub b_out: Option<B>,
    pub c_out: Option<C>,
}

/// Start joining three tasks: nothing collected yet.
pub fn join3<A, B, C>() -> (r: Join3<A, B, C>)
    ensures
        r.a_out is None,
        r.b_out is None,
        r.c_out is None,
{
    Join3 { a_out: None, b_out: None, c_out: None }
}

impl<A, B, C> Join3<A, B, C> {
    pub fn needs_a(&self) -> (r: bool)
        ensures
            r == self.a_out is None,
    {
        self.a_out.is_none()
    }

    pub fn needs_b(&self) -> (r: bool)
        ensures
            r == self.b_out is None,
    {
        self.b_out.is_none()
    }

    pub fn needs_c(&self) -> (r: bool)
        ensures
            r == self.c_out is None,
    {
        self.c_out.is_none()
    }

    /// Record this round's outcomes and complete once all three are in.
    pub fn poll(&mut self, a: Polled<A>, b: Polled<B>, c: Polled<C>) -> (r: Polled<(A, B, C)>)
        ensures
            ({
                let na = collected(old(self).a_out, a);
                let nb = collected(old(self).b_out, b);
                let nc = collected(old(self).c_out, c);
                if na is Some && nb is Some && nc is Some {
                    &&& r == Polled::Ready((na->0, nb->0, nc->0))
                    &&& final(self).a_out is None
                    &&& final(self).b_out is None
                    &&& final(self).c_out is None
                } else {
                    &&& r is Pending
                    &&& final(self).a_out == na
                    &&& final(self).b_out == nb
                    &&& final(self).c_out == nc
                }
            }),
    {
        collect(&mut self.a_out, a);
        collect(&mut self.b_out, b);
        collect(&mut self.c_out, c);
        if self.a_out.is_some() && self.b_out.is_some() && self.c_out.is_some() {
            let x = self.a_out.take().unwrap();
            let y = self.b_out.take().unwrap();
            let z = self.c_out.take().unwrap();
            Polled::Ready((x, y, z))
        } else {
            Polled::Pending
        }
    }
}

/// Race two tasks; the first is polled first each round.
pub struct Select;

pub fn select() -> (r: Select) {
    Select
}

impl Select {
    /// Complete with the first ready branch, preferring the first task.
    pub fn poll<A, B>(&self, a: Polled<A>, b: Polled<B>) -> (r: Polled<Either<A, B>>)
        ensures
            a matches Polled::Ready(v) ==> r == Polled::Ready(Either::<A, B>::First(v)),
            a is Pending ==> (b matches Polled::Ready(w) ==> r == Polled::Ready(Either::<A, B>::Second(w))),
            a is Pending && b is Pending ==> r is Pending,
    {
        match a {
            Polled::Ready(v) => Polled::Ready(Either::First(v)),
            Polled::Pending => match b {
                Polled::Ready(w) => Polled::Ready(Either::Second(w)),
                Polled::Pending => Polled::Pending,
            },
        }
    }
}

/// Race three tasks, polled in order each round.
pub struct Select3;

pub fn select3() -> (r: Select3) {
    Select3
}

impl Select3 {
    /// Complete with the first ready branch, in order.
    pub fn poll<A, B, C>(&self, a: Polled<A>, b: Polled<B>, c: Polled<C>) -> (r: Polled<Either3<A, B, C>>)
        ensures
            a matches Polled::Ready(v) ==> r == Polled::Ready(Either3::<A, B, C>::First(v)),
            a is Pending ==> (b matches Polled::Ready(w) ==> r == Polled::Ready(Either3::<A, B, C>::Second(w))),
            a is Pending && b is Pending ==> (c matches Polled::Ready(x) ==> r == Polled::Ready(Either3::<A, B, C>::Third(x))),
            a is Pending && b is Pending && c is Pending ==> r is Pending,
    {
        match a {
            Polled::Ready(v) => Polled::Ready(Either3::First(v)),
            Polled::Pending => match b {
                Polled::Ready(w) => Polled::Ready(Either3::Second(w)),
                Polled::Pending => match c {
                    Polled::Ready(x) => Polled::Ready(Either3::Third(x)),
                    Polled::Pending => Polled::Pending,
                },
            },
        }
    }
}

/// A task bounded by a deadline.
pub struct Timeout {
    pub deadline: Instant,
}

/// Bound a task by `duration` from the clock reading `now`. A deadline past
/// the end of the clock is an overflow, which `requires` leaves out.
pub fn timeout(now: Instant, duration: Duration) -> (r: Timeout)
    requires
        now@ + duration@ <= u64::MAX,
    ensures
        r.deadline@ == now@ + duration@,
{
    Timeout { deadline: Instant { tick: now.tick + duration.as_ticks() } }
}

/// Bound a task by an absolute deadline.
pub fn with_deadline(deadline: Instant) -> (r: Timeout)
    ensures
        r.deadline == deadline,
{
    Timeout { deadline }
}

impl Timeout {
    /// The task's output if it is ready, else `Elapsed` once the clock reading
    /// `now` has reached the deadline, else pending.
    pub fn poll<T>(&self, task: Polled<T>, now: Instant) -> (r: Polled<Result<T, Elapsed>>)
        ensures
            task matches Polled::Ready(v) ==> r == Polled::Ready(Ok::<T, Elapsed>(v)),
            task is Pending && now@ >= self.deadline@ ==> r == Polled::Ready(Err::<T, Elapsed>(Elapsed)),
            task is Pending && now@ < self.deadline@ ==> r is Pending,
    {
        match task {
            Polled::Ready(v) => Polled::Ready(Ok(v)),
            Polled::Pending => {
                if now.tick >= self.deadline.tick {
                    Polled::Ready(Err(Elapsed))
                } else {
                    Polled::Pending
                }
            },
        }
    }
}

} // verus!
