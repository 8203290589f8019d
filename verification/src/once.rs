//! One-time initialization.
use vstd::prelude::*;

verus! {

pub const UNSTARTED: u8 = 0u8;

pub const STARTED: u8 = 1u8;

pub const COMPLETED: u8 = 2u8;

#[derive(Debug)]
pub struct Once {
    state: u8,
}

impl Once {
    /// The state: `UNSTARTED`, `STARTED` or `COMPLETED`.
    pub closed spec fn state(&self) -> u8 {
        self.state
    }

    pub fn new() -> (r: Once)
        ensures
            r.state() == UNSTARTED,
    {
        Once { state: UNSTARTED }
    }

    /// Start the one run: if no call has started yet, mark the run started
    /// and return `true` (the caller then runs its closure and calls
    /// [`finish`](Self::finish)); otherwise change nothing and return
    /// `false`. A caller that finds the run started by another returns at
    /// once, before that run has completed.
    pub fn begin(&mut self) -> (r: bool)
        ensures
            (final(self).state(), r) == begin_step(old(self).state()),
    {
        if self.state == UNSTARTED {
            self.state = STARTED;
            true
        } else {
            false
        }
    }

    /// Mark the started run completed.
    pub fn finish(&mut self)
        requires
            old(self).state() == STARTED,
        ensures
            final(self).state() == COMPLETED,
    {
        self.state = COMPLETED;
    }

    /// Run `f` if no call has started yet; afterwards the `Once` is completed.
    /// Returns whether `f` ran.
    pub fn call_once<F: FnOnce()>(&mut self, f: F) -> (r: bool)
        requires
            f.requires(()),
        ensures
            r == (old(self).state() == UNSTARTED),
            r ==> final(self).state() == COMPLETED && f.ensures((), ()),
            !r ==> final(self).state() == old(self).state(),
    {
        if self.begin() {
            f();
            self.finish();
            true
        } else {
            false
        }
    }

    pub fn is_completed(&self) -> (r: bool)
        ensures
            r == (self.state() == COMPLETED),
    {
        self.state == COMPLETED
    }
}

/// What a `begin` does to the state: from `UNSTARTED` it starts the run and
/// wins; from any other state it changes nothing and loses.
pub open spec fn begin_step(s: u8) -> (u8, bool) {
    if s == UNSTARTED {
        (STARTED, true)
    } else {
        (s, false)
    }
}

/// What a `finish` does to the state.
pub open spec fn finish_step(s: u8) -> u8 {
    if s == STARTED {
        COMPLETED
    } else {
        s
    }
}

/// The number of `begin` calls that win along `ops`, read from the state
/// `s`, where `true` stands for a `begin` and `false` for a `finish`.
pub open spec fn begins_won(s: u8, ops: Seq<bool>) -> nat
    decreases ops.len(),
{
    if ops.len() == 0 {
        0
    } else if ops[0] {
        let (next, won) = begin_step(s);
        (if won { 1nat } else { 0nat }) + begins_won(next, ops.drop_first())
    } else {
        begins_won(finish_step(s), ops.drop_first())
    }
}

/// A `Once` runs its closure at most once: of any sequence of `begin` and
/// `finish` calls, from any interleaving of callers, at most one `begin`
/// wins, and none does once a run has started.
pub proof fn lemma_once_runs_at_most_once(s: u8, ops: Seq<bool>)
    ensures
        begins_won(s, ops) <= 1,
        s != UNSTARTED ==> begins_won(s, ops) == 0,
    decreases ops.len(),
{
    if ops.len() > 0 {
        if ops[0] {
            let (next, won) = begin_step(s);
            lemma_once_runs_at_most_once(next, ops.drop_first());
        } else {
            lemma_once_runs_at_most_once(finish_step(s), ops.drop_first());
        }
    }
}

pub struct OnceLock<T> {
    cell: Option<T>,
}

impl<T> View for OnceLock<T> {
    type V = Option<T>;

    /// The value, once set.
    closed spec fn view(&self) -> Option<T> {
        self.cell
    }
}

impl<T> OnceLock<T> {
    pub fn new() -> (r: OnceLock<T>)
        ensures
            r@ is None,
    {
        OnceLock { cell: None }
    }

    pub fn get(&self) -> (r: Option<&T>)
        ensures
            r matches Some(v) ==> self@ == Some(*v),
            r is None <==> self@ is None,
    {
        match &self.cell {
            Some(v) => Some(v),
            None => None,
        }
    }

    /// Exclusive access to the value, if set; the lock then holds what the
    /// borrower leaves.
    pub fn get_mut(&mut self) -> (r: Option<&mut T>)
        ensures
            old(self)@ is None <==> r is None,
            r is None ==> final(self)@ is None,
            r matches Some(v) ==> old(self)@ == Some(*v) && final(self)@ == Some(*final(v)),
    {
        self.cell.as_mut()
    }

    /// Set the value if it is not set yet; otherwise hand `value` back.
    pub fn set(&mut self, value: T) -> (r: Result<(), T>)
        ensures
            old(self)@ is None ==> r is Ok && final(self)@ == Some(value),
            old(self)@ is Some ==> r == Err::<(), T>(value) && final(self)@ == old(self)@,
    {
        if self.cell.is_some() {
            Err(value)
        } else {
            self.cell = Some(value);
            Ok(())
        }
    }

    /// The value, initialized by `init` if it is not set yet.
    pub fn get_or_init<F: FnOnce() -> T>(&mut self, init: F) -> (r: &T)
        requires
            old(self)@ is None ==> init.requires(()),
        ensures
            final(self)@ == Some(*r),
            old(self)@ is Some ==> final(self)@ == old(self)@,
            old(self)@ is None ==> init.ensures((), *r),
    {
        if self.cell.is_none() {
            let v = init();
            self.cell = Some(v);
        }
        self.cell.as_ref().unwrap()
    }

    pub fn into_inner(self) -> (r: Option<T>)
        ensures
            r == self@,
    {
        self.cell
    }

    /// Take the value out, leaving the lock unset.
    pub fn take(&mut self) -> (r: Option<T>)
        ensures
            r == old(self)@,
            final(self)@ is None,
    {
        self.cell.take()
    }
}

} // verus!
