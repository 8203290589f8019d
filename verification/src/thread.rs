//! Per-thread kernel bookkeeping: execution state, the locks a thread holds,
//! and the priority it runs at.
//!
//! A thread always runs at the highest of its base priority, the ceilings of
//! the ceiling locks it holds (nesting and scoped), and any priority it has
//! inherited through an inheritance lock.
use crate::priority::{
    rank, spec_max, spec_max_valid, spec_opt_max, spec_priority, spec_some, Priority, PriorityOpt,
};
use crate::protected::TimedOut;
use crate::time::Instant;
use vstd::prelude::*;

verus! {

pub const INVALID_THREAD_ID: u32 = 0u32;

pub const IDLE_THREAD_ID: u32 = 1u32;

/// A set of event flags, one per bit.
pub type Events = u32;

/// An execution core.
pub type CoreId = usize;

#[derive(PartialEq, Eq, Structural, Hash, Copy, Clone, Debug)]
pub enum ThreadExecutionState {
    Created,
    Started,
    Ready,
    Running,
    Blocked,
}

/// A scoped ceiling lock held by a thread.
#[derive(PartialEq, Eq, Structural, Copy, Clone, Debug)]
pub struct CeilingLockEntry {
    pub lock_id: u32,
    pub ceiling: Priority,
}

/// The events a blocked thread waits for: any of them, or all of them.
#[derive(PartialEq, Eq, Structural, Copy, Clone, Debug)]
pub struct WaitEvents {
    pub events: Events,
    pub wait_any: bool,
}

/// Whether the pending events satisfy a wait.
pub open spec fn spec_should_resume(w: WaitEvents, pending: Events) -> bool {
    if w.wait_any {
        pending & w.events != 0
    } else {
        pending & w.events == w.events
    }
}

impl WaitEvents {
    /// Whether `pending` satisfies this wait.
    pub fn should_resume(&self, pending: Events) -> (r: bool)
        ensures
            r == spec_should_resume(*self, pending),
    {
        if self.wait_any {
            pending & self.events != 0
        } else {
            pending & self.events == self.events
        }
    }
}

/// What a wait on events decides, bit by bit: a wait for any event is
/// satisfied as soon as one awaited event is pending, and not while none is;
/// a wait for all events is satisfied when every awaited event is pending,
/// and not while one of them is missing. So a wait for any is satisfied
/// whenever the wait for all of the same events is.
pub proof fn lemma_wait_events_decide(w: WaitEvents, pending: Events, i: u32)
    requires
        i < 32,
    ensures
        w.wait_any && (w.events & (1u32 << i)) != 0 && (pending & (1u32 << i)) != 0 ==> spec_should_resume(
            w,
            pending,
        ),
        w.wait_any && (pending & w.events) == 0 ==> !spec_should_resume(w, pending),
        !w.wait_any && (pending | w.events) == pending ==> spec_should_resume(w, pending),
        !w.wait_any && (w.events & (1u32 << i)) != 0 && (pending & (1u32 << i)) == 0 ==> !spec_should_resume(
            w,
            pending,
        ),
        w.events != 0 && spec_should_resume(WaitEvents { events: w.events, wait_any: false }, pending)
            ==> spec_should_resume(WaitEvents { events: w.events, wait_any: true }, pending),
{
    let e = w.events;
    assert((e & (1u32 << i)) != 0 && (pending & (1u32 << i)) != 0 ==> (pending & e) != 0) by (bit_vector)
        requires
            i < 32,
    ;
    assert((pending | e) == pending ==> (pending & e) == e) by (bit_vector);
    assert((e & (1u32 << i)) != 0 && (pending & (1u32 << i)) == 0 ==> (pending & e) != e) by (bit_vector)
        requires
            i < 32,
    ;
    assert(e != 0 && (pending & e) == e ==> (pending & e) != 0) by (bit_vector);
}

/// Two records of the same thread: identifier, name, base priority and core
/// agree.
pub open spec fn same_identity(a: RawThread, b: RawThread) -> bool {
    &&& a.spec_thread_id() == b.spec_thread_id()
    &&& a.spec_name() == b.spec_name()
    &&& a.spec_base_priority() == b.spec_base_priority()
    &&& a.spec_core() == b.spec_core()
}

/// Whether `k` is the first position of `id` in `l`.
pub open spec fn first_position(l: Seq<u32>, id: u32, k: int) -> bool {
    &&& 0 <= k < l.len()
    &&& l[k] == id
    &&& forall|j: int| 0 <= j < k ==> l[j] != id
}

/// `l` without the first occurrence of `id`, or `l` itself if `id` does not
/// occur.
pub open spec fn without_inheritance_lock(l: Seq<u32>, id: u32) -> Seq<u32> {
    if exists|k: int| first_position(l, id, k) {
        l.remove(choose|k: int| first_position(l, id, k))
    } else {
        l
    }
}

/// Ceiling locks are held highest ceiling first.
pub open spec fn ceiling_sorted(l: Seq<CeilingLockEntry>) -> bool {
    forall|i: int, j: int| 0 <= i < j < l.len() ==> rank(l[i].ceiling) >= rank(l[j].ceiling)
}

/// The highest ceiling of the scoped locks held, if any.
pub open spec fn ceiling_head(l: Seq<CeilingLockEntry>) -> PriorityOpt {
    if l.len() == 0 {
        PriorityOpt::Absent
    } else {
        spec_some(l[0].ceiling)
    }
}

/// The highest ceiling of all ceiling locks held.
pub open spec fn spec_lock_priority(nesting: PriorityOpt, l: Seq<CeilingLockEntry>) -> PriorityOpt {
    spec_opt_max(nesting, ceiling_head(l))
}

/// The priority a thread runs at.
pub open spec fn spec_effective_priority(
    base: Priority,
    lock_priority: PriorityOpt,
    inherited: PriorityOpt,
) -> Priority {
    spec_max_valid(spec_max_valid(base, lock_priority), inherited)
}

/// The place of a lock of ceiling `c`: after every held lock of a strictly
/// higher ceiling.
pub open spec fn ceiling_position(l: Seq<CeilingLockEntry>, c: Priority) -> int
    decreases l.len(),
{
    if l.len() == 0 {
        0
    } else if rank(l[0].ceiling) > rank(c) {
        1 + ceiling_position(l.drop_first(), c)
    } else {
        0
    }
}

proof fn lemma_ceiling_position(l: Seq<CeilingLockEntry>, c: Priority)
    requires
        ceiling_sorted(l),
    ensures
        0 <= ceiling_position(l, c) <= l.len(),
        forall|i: int| 0 <= i < ceiling_position(l, c) ==> rank(#[trigger] l[i].ceiling) > rank(c),
        forall|i: int| ceiling_position(l, c) <= i < l.len() ==> rank(#[trigger] l[i].ceiling) <= rank(c),
    decreases l.len(),
{
    if l.len() > 0 {
        let t = l.drop_first();
        lemma_ceiling_position(t, c);
        if rank(l[0].ceiling) > rank(c) {
            assert forall|i: int| 0 <= i < ceiling_position(l, c) implies rank(#[trigger] l[i].ceiling) > rank(c) by {
                if i > 0 {
                    assert(l[i] == t[i - 1]);
                }
            }
            assert forall|i: int| ceiling_position(l, c) <= i < l.len() implies rank(#[trigger] l[i].ceiling) <= rank(c) by {
                assert(l[i] == t[i - 1]);
            }
        } else {
            assert forall|i: int| 0 <= i < l.len() implies rank(#[trigger] l[i].ceiling) <= rank(c) by {
                if i > 0 {
                    assert(rank(l[0].ceiling) >= rank(l[i].ceiling));
                }
            }
        }
    }
}

/// Inserting a lock at its place keeps the list ordered, and the highest
/// ceiling becomes the higher of the old highest and the new one.
proof fn lemma_ceiling_insert(l: Seq<CeilingLockEntry>, e: CeilingLockEntry)
    requires
        ceiling_sorted(l),
    ensures
        ceiling_sorted(l.insert(ceiling_position(l, e.ceiling), e)),
        ceiling_head(l.insert(ceiling_position(l, e.ceiling), e)) == spec_opt_max(
            ceiling_head(l),
            spec_some(e.ceiling),
        ),
{
    lemma_ceiling_position(l, e.ceiling);
    let pos = ceiling_position(l, e.ceiling);
    let r = l.insert(pos, e);
    assert forall|i: int, j: int| 0 <= i < j < r.len() implies rank(r[i].ceiling) >= rank(
        r[j].ceiling,
    ) by {
        if i < pos {
            assert(r[i] == l[i]);
            if j < pos {
                assert(r[j] == l[j]);
            } else if j > pos {
                assert(r[j] == l[j - 1]);
            }
        } else if i == pos {
            assert(r[j] == l[j - 1]);
        } else {
            assert(r[i] == l[i - 1]);
            assert(r[j] == l[j - 1]);
        }
    }
    if l.len() > 0 {
        crate::priority::lemma_max_laws(l[0].ceiling, e.ceiling, e.ceiling);
        crate::priority::lemma_rank_order(l[0].ceiling, e.ceiling);
        if pos == 0 {
            assert(r[0] == e);
        } else {
            assert(r[0] == l[0]);
        }
    }
}

proof fn lemma_ceiling_remove(l: Seq<CeilingLockEntry>, i: int)
    requires
        ceiling_sorted(l),
        0 <= i < l.len(),
    ensures
        ceiling_sorted(l.remove(i)),
{
    let r = l.remove(i);
    assert forall|a: int, b: int| 0 <= a < b < r.len() implies rank(r[a].ceiling) >= rank(
        r[b].ceiling,
    ) by {
        let oa = if a < i { a } else { a + 1 };
        let ob = if b < i { b } else { b + 1 };
        assert(r[a] == l[oa]);
        assert(r[b] == l[ob]);
    }
}

/// The held locks after dropping the first one with identifier `lock_id`, if
/// any.
pub open spec fn without_lock(l: Seq<CeilingLockEntry>, lock_id: u32) -> Seq<CeilingLockEntry>
    decreases l.len(),
{
    if l.len() == 0 {
        l
    } else if l[0].lock_id == lock_id {
        l.drop_first()
    } else {
        seq![l[0]] + without_lock(l.drop_first(), lock_id)
    }
}

proof fn lemma_without_lock(l: Seq<CeilingLockEntry>, lock_id: u32, i: int)
    requires
        0 <= i <= l.len(),
        forall|j: int| 0 <= j < i ==> #[trigger] l[j].lock_id != lock_id,
        i < l.len() ==> l[i].lock_id == lock_id,
    ensures
        i < l.len() ==> without_lock(l, lock_id) == l.remove(i),
        i == l.len() ==> without_lock(l, lock_id) == l,
    decreases l.len(),
{
    if l.len() > 0 {
        if i > 0 {
            let t = l.drop_first();
            assert forall|j: int| 0 <= j < i - 1 implies #[trigger] t[j].lock_id != lock_id by {
                assert(t[j] == l[j + 1]);
            }
            lemma_without_lock(t, lock_id, i - 1);
            if i < l.len() {
                assert(l.remove(i) =~= seq![l[0]] + t.remove(i - 1));
            } else {
                assert(l =~= seq![l[0]] + t);
            }
        } else {
            assert(l.remove(0) =~= l.drop_first());
        }
    }
}

/// Record the scoped lock `lock` among the held locks `locks`, after every
/// held lock of a strictly higher ceiling.
pub fn insert_ceiling_lock(locks: &mut Vec<CeilingLockEntry>, lock: CeilingLockEntry)
    requires
        ceiling_sorted(old(locks)@),
    ensures
        final(locks)@ == old(locks)@.insert(ceiling_position(old(locks)@, lock.ceiling), lock),
        ceiling_sorted(final(locks)@),
        ceiling_head(final(locks)@) == spec_opt_max(ceiling_head(old(locks)@), spec_some(lock.ceiling)),
{
    proof {
        lemma_ceiling_position(locks@, lock.ceiling);
        lemma_ceiling_insert(locks@, lock);
    }
    let mut pos: usize = 0;
    let len = locks.len();
    while pos < len && locks[pos].ceiling > lock.ceiling
        invariant
            len == locks@.len(),
            locks@ == old(locks)@,
            0 <= pos <= len,
            pos <= ceiling_position(locks@, lock.ceiling),
            0 <= ceiling_position(locks@, lock.ceiling) <= len,
            forall|i: int| ceiling_position(locks@, lock.ceiling) <= i < len ==> rank(#[trigger] locks@[i].ceiling) <= rank(lock.ceiling),
            forall|i: int| 0 <= i < ceiling_position(locks@, lock.ceiling) ==> rank(#[trigger] locks@[i].ceiling) > rank(lock.ceiling),
        decreases len - pos,
    {
        pos = pos + 1;
    }
    assert(pos == ceiling_position(locks@, lock.ceiling)) by {
        if pos < ceiling_position(locks@, lock.ceiling) {
            assert(rank(locks@[pos as int].ceiling) > rank(lock.ceiling));
        }
    }
    locks.insert(pos, lock);
}

/// Drop the first held scoped lock with identifier `lock_id`, if any.
pub fn remove_ceiling_lock(locks: &mut Vec<CeilingLockEntry>, lock_id: u32)
    requires
        ceiling_sorted(old(locks)@),
    ensures
        final(locks)@ == without_lock(old(locks)@, lock_id),
        ceiling_sorted(final(locks)@),
{
    let mut i: usize = 0;
    let len = locks.len();
    while i < len
        invariant
            len == locks@.len(),
            locks@ == old(locks)@,
            ceiling_sorted(locks@),
            0 <= i <= len,
            forall|j: int| 0 <= j < i ==> #[trigger] locks@[j].lock_id != lock_id,
        decreases len - i,
    {
        if locks[i].lock_id == lock_id {
            proof {
                lemma_ceiling_remove(locks@, i as int);
                lemma_without_lock(locks@, lock_id, i as int);
            }
            let _ = locks.remove(i);
            return;
        }
        i = i + 1;
    }
    proof {
        lemma_without_lock(locks@, lock_id, i as int);
    }
}

/// Dropping a lock that is held shortens the list by one; dropping one
/// that is not held changes nothing.
proof fn lemma_without_lock_len(l: Seq<CeilingLockEntry>, lock_id: u32)
    ensures
        (exists|i: int| 0 <= i < l.len() && #[trigger] l[i].lock_id == lock_id) ==> without_lock(l, lock_id).len()
            == l.len() - 1,
        !(exists|i: int| 0 <= i < l.len() && #[trigger] l[i].lock_id == lock_id) ==> without_lock(l, lock_id) == l,
    decreases l.len(),
{
    if l.len() > 0 {
        let t = l.drop_first();
        lemma_without_lock_len(t, lock_id);
        if l[0].lock_id != lock_id {
            if exists|i: int| 0 <= i < l.len() && #[trigger] l[i].lock_id == lock_id {
                let i = choose|i: int| 0 <= i < l.len() && #[trigger] l[i].lock_id == lock_id;
                assert(t[i - 1].lock_id == lock_id);
            } else {
                assert forall|i: int| 0 <= i < t.len() implies #[trigger] t[i].lock_id != lock_id by {
                    assert(t[i] == l[i + 1]);
                }
                assert(l =~= seq![l[0]] + t);
            }
        }
    }
}

pub struct ThreadInfo {
    pub name: &'static str,
    pub state: ThreadExecutionState,
    pub base_priority: Priority,
    pub core: CoreId,
}

/// The kernel's record of one thread.
pub struct RawThread {
    thread_id: u32,
    name: &'static str,
    base_priority: Priority,
    core: CoreId,
    nesting_lock_priority: PriorityOpt,
    inherited_priority: PriorityOpt,
    priority: Priority,
    ceiling_locks: Vec<CeilingLockEntry>,
    inheritance_locks: Vec<u32>,
    state: ThreadExecutionState,
    wait_queue: Option<u32>,
    wait_timed_out: bool,
    pending_block_deadline: Option<Instant>,
    pending_events: Events,
    current_wait_events: Option<WaitEvents>,
}

impl RawThread {
    /// The thread runs at its effective priority and holds its ceiling locks
    /// highest ceiling first.
    pub closed spec fn wf(&self) -> bool {
        &&& ceiling_sorted(self.ceiling_locks@)
        &&& self.priority == spec_effective_priority(
            self.base_priority,
            spec_lock_priority(self.nesting_lock_priority, self.ceiling_locks@),
            self.inherited_priority,
        )
    }

    pub closed spec fn spec_thread_id(&self) -> u32 {
        self.thread_id
    }

    pub closed spec fn spec_name(&self) -> &'static str {
        self.name
    }

    pub closed spec fn spec_base_priority(&self) -> Priority {
        self.base_priority
    }

    pub closed spec fn spec_core(&self) -> CoreId {
        self.core
    }

    pub closed spec fn spec_priority(&self) -> Priority {
        self.priority
    }

    pub closed spec fn spec_nesting_lock_priority(&self) -> PriorityOpt {
        self.nesting_lock_priority
    }

    pub closed spec fn spec_inherited_priority(&self) -> PriorityOpt {
        self.inherited_priority
    }

    /// The scoped ceiling locks held, highest ceiling first.
    pub closed spec fn spec_ceiling_locks(&self) -> Seq<CeilingLockEntry> {
        self.ceiling_locks@
    }

    /// The inheritance locks held, in acquisition order.
    pub closed spec fn spec_inheritance_locks(&self) -> Seq<u32> {
        self.inheritance_locks@
    }

    pub closed spec fn spec_state(&self) -> ThreadExecutionState {
        self.state
    }

    pub closed spec fn spec_wait_queue(&self) -> Option<u32> {
        self.wait_queue
    }

    pub closed spec fn spec_wait_timed_out(&self) -> bool {
        self.wait_timed_out
    }

    pub closed spec fn spec_pending_block_deadline(&self) -> Option<Instant> {
        self.pending_block_deadline
    }

    pub closed spec fn spec_pending_events(&self) -> Events {
        self.pending_events
    }

    pub closed spec fn spec_wait_events(&self) -> Option<WaitEvents> {
        self.current_wait_events
    }

    /// The highest ceiling of all ceiling locks held.
    pub open spec fn spec_lock_priority(&self) -> PriorityOpt {
        spec_lock_priority(self.spec_nesting_lock_priority(), self.spec_ceiling_locks())
    }

    /// The priority at which the thread waits in a wait queue: its base
    /// priority raised by the scoped locks it holds and by inheritance, but
    /// not by the nesting locks it holds while queuing itself.
    pub open spec fn spec_waiting_priority(&self) -> Priority {
        spec_max_valid(
            spec_max_valid(self.spec_base_priority(), ceiling_head(self.spec_ceiling_locks())),
            self.spec_inherited_priority(),
        )
    }

    /// A new thread record: no locks, nothing inherited, running at its base
    /// priority.
    pub fn new(name: &'static str, base_priority: Priority, core: CoreId) -> (r: RawThread)
        ensures
            r.wf(),
            r.spec_thread_id() == INVALID_THREAD_ID,
            r.spec_name() == name,
            r.spec_base_priority() == base_priority,
            r.spec_core() == core,
            r.spec_priority() == base_priority,
            r.spec_nesting_lock_priority() == PriorityOpt::Absent,
            r.spec_inherited_priority() == PriorityOpt::Absent,
            r.spec_ceiling_locks().len() == 0,
            r.spec_inheritance_locks().len() == 0,
            r.spec_state() == ThreadExecutionState::Created,
            r.spec_wait_queue() is None,
            !r.spec_wait_timed_out(),
            r.spec_pending_block_deadline() is None,
            r.spec_pending_events() == 0,
            r.spec_wait_events() is None,
    {
        RawThread {
            thread_id: INVALID_THREAD_ID,
            name,
            base_priority,
            core,
            nesting_lock_priority: PriorityOpt::none(),
            inherited_priority: PriorityOpt::none(),
            priority: base_priority,
            ceiling_locks: Vec::new(),
            inheritance_locks: Vec::new(),
            state: ThreadExecutionState::Created,
            wait_queue: None,
            wait_timed_out: false,
            pending_block_deadline: None,
            pending_events: 0,
            current_wait_events: None,
        }
    }

    /// Move a created thread to the started state. Starting a thread twice is
    /// a fault, which `requires` leaves out.
    pub fn start(&mut self)
        requires
            old(self).spec_state() == ThreadExecutionState::Created,
        ensures
            same_identity(*old(self), *final(self)),
            final(self).spec_state() == ThreadExecutionState::Started,
            final(self).spec_priority() == old(self).spec_priority(),
            final(self).wf() == old(self).wf(),
    {
        self.state = ThreadExecutionState::Started;
    }

    pub fn get_info(&self) -> (r: ThreadInfo)
        ensures
            r.name == self.spec_name(),
            r.state == self.spec_state(),
            r.base_priority == self.spec_base_priority(),
            r.core == self.spec_core(),
    {
        ThreadInfo {
            name: self.name,
            state: self.state,
            base_priority: self.base_priority,
            core: self.core,
        }
    }

    pub fn thread_id(&self) -> (r: u32)
        ensures
            r == self.spec_thread_id(),
    {
        self.thread_id
    }

    /// Assign the thread its identifier.
    pub fn set_thread_id(&mut self, thread_id: u32)
        ensures
            final(self).spec_thread_id() == thread_id,
            final(self).spec_name() == old(self).spec_name(),
            final(self).spec_base_priority() == old(self).spec_base_priority(),
            final(self).spec_core() == old(self).spec_core(),
            final(self).spec_priority() == old(self).spec_priority(),
            final(self).spec_state() == old(self).spec_state(),
            final(self).wf() == old(self).wf(),
    {
        self.thread_id = thread_id;
    }

    pub fn name(&self) -> (r: &'static str)
        ensures
            r == self.spec_name(),
    {
        self.name
    }

    pub fn base_priority(&self) -> (r: Priority)
        ensures
            r == self.spec_base_priority(),
    {
        self.base_priority
    }

    pub fn core_id(&self) -> (r: CoreId)
        ensures
            r == self.spec_core(),
    {
        self.core
    }

    pub fn state(&self) -> (r: ThreadExecutionState)
        ensures
            r == self.spec_state(),
    {
        self.state
    }

    pub fn set_state(&mut self, state: ThreadExecutionState)
        ensures
            same_identity(*old(self), *final(self)),
            final(self).spec_state() == state,
            final(self).spec_priority() == old(self).spec_priority(),
            final(self).spec_ceiling_locks() == old(self).spec_ceiling_locks(),
            final(self).spec_nesting_lock_priority() == old(self).spec_nesting_lock_priority(),
            final(self).wf() == old(self).wf(),
    {
        self.state = state;
    }

    /// The highest ceiling of all ceiling locks held: nesting locks and the
    /// first (highest) scoped lock.
    pub fn ceiling_lock_priority(&self) -> (r: PriorityOpt)
        ensures
            r == self.spec_lock_priority(),
    {
        let scoped = if self.ceiling_locks.len() == 0 {
            PriorityOpt::none()
        } else {
            PriorityOpt::some(self.ceiling_locks[0].ceiling)
        };
        self.nesting_lock_priority.max(scoped)
    }

    /// Whether the thread holds any inheritance lock.
    pub fn holds_inheritance_lock(&self) -> (r: bool)
        ensures
            r == (self.spec_inheritance_locks().len() > 0),
    {
        self.inheritance_locks.len() > 0
    }

    /// The priority the thread runs at.
    pub fn priority(&self) -> (r: Priority)
        ensures
            r == self.spec_priority(),
    {
        self.priority
    }

    /// The priority at which the thread waits in a wait queue: its base
    /// priority raised by the scoped locks it holds and by inheritance.
    pub fn waiting_priority(&self) -> (r: Priority)
        ensures
            r == self.spec_waiting_priority(),
    {
        let scoped = if self.ceiling_locks.len() == 0 {
            PriorityOpt::none()
        } else {
            PriorityOpt::some(self.ceiling_locks[0].ceiling)
        };
        let p = self.base_priority.max_valid(scoped);
        p.max_valid(self.inherited_priority)
    }

    /// Recompute the priority from the base priority, the locks held and the
    /// inherited priority; returns whether it changed.
    pub fn update_priority(&mut self) -> (r: bool)
        requires
            ceiling_sorted(old(self).spec_ceiling_locks()),
        ensures
            same_identity(*old(self), *final(self)),
            final(self).wf(),
            final(self).spec_priority() == spec_effective_priority(
                old(self).spec_base_priority(),
                old(self).spec_lock_priority(),
                old(self).spec_inherited_priority(),
            ),
            r == (final(self).spec_priority() != old(self).spec_priority()),
            final(self).spec_ceiling_locks() == old(self).spec_ceiling_locks(),
            final(self).spec_inheritance_locks() == old(self).spec_inheritance_locks(),
            final(self).spec_nesting_lock_priority() == old(self).spec_nesting_lock_priority(),
            final(self).spec_inherited_priority() == old(self).spec_inherited_priority(),
            final(self).spec_state() == old(self).spec_state(),
            final(self).spec_base_priority() == old(self).spec_base_priority(),
            final(self).spec_core() == old(self).spec_core(),
            final(self).spec_thread_id() == old(self).spec_thread_id(),
    {
        let lock_priority = self.ceiling_lock_priority();
        let new_priority = self.base_priority.max_valid(lock_priority);
        let new_priority = new_priority.max_valid(self.inherited_priority);
        let old_priority = self.priority;
        self.priority = new_priority;
        old_priority != new_priority
    }

    /// Record a scoped ceiling lock as held, after every held lock of a
    /// strictly higher ceiling, and raise the priority accordingly.
    pub fn ceiling_lock_acquired(&mut self, lock: CeilingLockEntry)
        requires
            old(self).wf(),
        ensures
            same_identity(*old(self), *final(self)),
            final(self).wf(),
            final(self).spec_ceiling_locks() == old(self).spec_ceiling_locks().insert(
                ceiling_position(old(self).spec_ceiling_locks(), lock.ceiling),
                lock,
            ),
            rank(final(self).spec_priority()) >= rank(lock.ceiling),
            ceiling_head(final(self).spec_ceiling_locks()) == spec_opt_max(
                ceiling_head(old(self).spec_ceiling_locks()),
                spec_some(lock.ceiling),
            ),
            final(self).spec_nesting_lock_priority() == old(self).spec_nesting_lock_priority(),
            final(self).spec_inherited_priority() == old(self).spec_inherited_priority(),
            final(self).spec_inheritance_locks() == old(self).spec_inheritance_locks(),
            final(self).spec_base_priority() == old(self).spec_base_priority(),
    {
        let ghost pos = ceiling_position(self.ceiling_locks@, lock.ceiling);
        proof {
            lemma_ceiling_position(self.ceiling_locks@, lock.ceiling);
        }
        insert_ceiling_lock(&mut self.ceiling_locks, lock);
        let _ = self.update_priority();
        proof {
            lemma_thread_priority_bounds(*self);
            assert(self.ceiling_locks@[pos] == lock);
        }
    }

    /// Drop the record of the scoped ceiling lock `lock_id` and lower the
    /// priority accordingly.
    pub fn ceiling_lock_released(&mut self, lock_id: u32)
        requires
            old(self).wf(),
        ensures
            same_identity(*old(self), *final(self)),
            final(self).wf(),
            (exists|i: int| 0 <= i < old(self).spec_ceiling_locks().len() && #[trigger] old(self).spec_ceiling_locks()[i].lock_id == lock_id)
                ==> final(self).spec_ceiling_locks().len() == old(self).spec_ceiling_locks().len() - 1,
            !(exists|i: int| 0 <= i < old(self).spec_ceiling_locks().len() && #[trigger] old(self).spec_ceiling_locks()[i].lock_id == lock_id)
                ==> final(self).spec_ceiling_locks() == old(self).spec_ceiling_locks(),
            final(self).spec_ceiling_locks() == without_lock(old(self).spec_ceiling_locks(), lock_id),
            final(self).spec_nesting_lock_priority() == old(self).spec_nesting_lock_priority(),
            final(self).spec_inherited_priority() == old(self).spec_inherited_priority(),
            final(self).spec_inheritance_locks() == old(self).spec_inheritance_locks(),
            final(self).spec_base_priority() == old(self).spec_base_priority(),
    {
        proof {
            lemma_without_lock_len(self.ceiling_locks@, lock_id);
        }
        remove_ceiling_lock(&mut self.ceiling_locks, lock_id);
        let _ = self.update_priority();
    }

    /// Record an inheritance lock as held. Holding an inheritance lock
    /// together with a ceiling lock is a fault, which `requires` leaves out.
    pub fn inheritance_lock_acquired(&mut self, lock_id: u32)
        requires
            old(self).spec_lock_priority() is Absent,
        ensures
            same_identity(*old(self), *final(self)),
            final(self).spec_inheritance_locks() == old(self).spec_inheritance_locks().push(lock_id),
            final(self).spec_priority() == old(self).spec_priority(),
            final(self).spec_ceiling_locks() == old(self).spec_ceiling_locks(),
            final(self).spec_nesting_lock_priority() == old(self).spec_nesting_lock_priority(),
            final(self).spec_inherited_priority() == old(self).spec_inherited_priority(),
            final(self).wf() == old(self).wf(),
    {
        self.inheritance_locks.push(lock_id);
    }

    /// Drop the record of inheritance lock `lock_id`; when no inheritance lock
    /// is left, the inherited priority is dropped. Returns whether the
    /// priority changed.
    pub fn inheritance_lock_released(&mut self, lock_id: u32) -> (r: bool)
        requires
            old(self).wf(),
        ensures
            same_identity(*old(self), *final(self)),
            final(self).wf(),
            final(self).spec_ceiling_locks() == old(self).spec_ceiling_locks(),
            final(self).spec_nesting_lock_priority() == old(self).spec_nesting_lock_priority(),
            final(self).spec_inheritance_locks().len() == 0 ==> final(self).spec_inherited_priority() is Absent,
            final(self).spec_inheritance_locks().len() > 0 ==> final(self).spec_inherited_priority() == old(self).spec_inherited_priority() && !r,
            r == (final(self).spec_priority() != old(self).spec_priority()),
            final(self).spec_inheritance_locks() == without_inheritance_lock(old(self).spec_inheritance_locks(), lock_id),
    {
        let mut i: usize = 0;
        let len = self.inheritance_locks.len();
        while i < len && self.inheritance_locks[i] != lock_id
            invariant
                len == self.inheritance_locks@.len(),
                *self == *old(self),
                0 <= i <= len,
                forall|j: int| 0 <= j < i ==> #[trigger] self.inheritance_locks@[j] != lock_id,
            decreases len - i,
        {
            i = i + 1;
        }
        proof {
            let l = old(self).spec_inheritance_locks();
            if i < len {
                assert(first_position(l, lock_id, i as int));
                let k = choose|k: int| first_position(l, lock_id, k);
                assert(k == i as int) by {
                    if k < i as int {
                        assert(l[k] != lock_id);
                    }
                    if k > i as int {
                        assert(l[i as int] != lock_id);
                    }
                }
            } else {
                assert(!exists|k: int| first_position(l, lock_id, k)) by {
                    if exists|k: int| first_position(l, lock_id, k) {
                        let k = choose|k: int| first_position(l, lock_id, k);
                        assert(self.inheritance_locks@[k] != lock_id);
                    }
                }
            }
        }
        if i < len {
            let _ = self.inheritance_locks.remove(i);
        }
        if self.inheritance_locks.len() == 0 {
            self.inherited_priority = PriorityOpt::none();
            self.update_priority()
        } else {
            false
        }
    }

    /// Raise the inherited priority to at least `priority`; returns whether
    /// the priority the thread runs at changed.
    pub fn inherit_priority(&mut self, priority: Priority) -> (r: bool)
        requires
            old(self).wf(),
        ensures
            same_identity(*old(self), *final(self)),
            final(self).wf(),
            final(self).spec_inherited_priority() == spec_opt_max(
                old(self).spec_inherited_priority(),
                spec_some(priority),
            ),
            rank(final(self).spec_priority()) >= rank(priority),
            r == (final(self).spec_priority() != old(self).spec_priority()),
            final(self).spec_ceiling_locks() == old(self).spec_ceiling_locks(),
            final(self).spec_nesting_lock_priority() == old(self).spec_nesting_lock_priority(),
            final(self).spec_inheritance_locks() == old(self).spec_inheritance_locks(),
    {
        self.inherited_priority = self.inherited_priority.max(PriorityOpt::some(priority));
        proof {
            lemma_effective_at_least_inherited(
                self.base_priority,
                spec_lock_priority(self.nesting_lock_priority, self.ceiling_locks@),
                self.inherited_priority,
                priority,
            );
        }
        self.update_priority()
    }

    /// Raise the nesting-lock priority to the ceiling `new_priority` of a
    /// nesting lock being taken; returns the previous nesting-lock priority,
    /// to be restored on release. Taking a nesting lock whose ceiling is below
    /// one already held is a fault, which `requires` leaves out.
    pub fn raise_nesting_lock_priority(&mut self, new_priority: Priority) -> (r: PriorityOpt)
        requires
            old(self).wf(),
            spec_priority(old(self).spec_nesting_lock_priority()) matches Some(p) ==> rank(p)
                <= rank(new_priority),
        ensures
            same_identity(*old(self), *final(self)),
            final(self).wf(),
            r == old(self).spec_nesting_lock_priority(),
            final(self).spec_nesting_lock_priority() == spec_some(new_priority),
            rank(final(self).spec_priority()) >= rank(new_priority),
            final(self).spec_ceiling_locks() == old(self).spec_ceiling_locks(),
            final(self).spec_inherited_priority() == old(self).spec_inherited_priority(),
            final(self).spec_inheritance_locks() == old(self).spec_inheritance_locks(),
    {
        let old_priority = self.nesting_lock_priority;
        let raised_priority = PriorityOpt::some(new_priority).max(old_priority);
        proof {
            match spec_priority(old_priority) {
                Some(p) => {
                    crate::priority::lemma_max_laws(new_priority, p, p);
                },
                None => {},
            }
        }
        self.nesting_lock_priority = raised_priority;
        proof {
            lemma_effective_at_least_lock(
                self.base_priority,
                self.nesting_lock_priority,
                self.ceiling_locks@,
                self.inherited_priority,
                new_priority,
            );
        }
        let _ = self.update_priority();
        old_priority
    }

    /// Restore the nesting-lock priority saved when a nesting lock was taken.
    pub fn set_nesting_lock_priority(&mut self, new_priority: PriorityOpt)
        requires
            old(self).wf(),
        ensures
            same_identity(*old(self), *final(self)),
            final(self).wf(),
            final(self).spec_nesting_lock_priority() == new_priority,
            final(self).spec_ceiling_locks() == old(self).spec_ceiling_locks(),
            final(self).spec_inherited_priority() == old(self).spec_inherited_priority(),
            final(self).spec_inheritance_locks() == old(self).spec_inheritance_locks(),
            final(self).spec_priority() == spec_effective_priority(
                old(self).spec_base_priority(),
                spec_lock_priority(new_priority, old(self).spec_ceiling_locks()),
                old(self).spec_inherited_priority(),
            ),
    {
        self.nesting_lock_priority = new_priority;
        let _ = self.update_priority();
    }

    /// Record the wait queue the thread is queued on.
    pub fn arm_wait(&mut self, queue: u32)
        ensures
            same_identity(*old(self), *final(self)),
            final(self).spec_wait_queue() == Some(queue),
            final(self).spec_priority() == old(self).spec_priority(),
            final(self).spec_state() == old(self).spec_state(),
            final(self).wf() == old(self).wf(),
    {
        self.wait_queue = Some(queue);
    }

    /// Forget the wait queue the thread was queued on.
    pub fn disarm_wait(&mut self)
        ensures
            same_identity(*old(self), *final(self)),
            final(self).spec_wait_queue() is None,
            final(self).spec_priority() == old(self).spec_priority(),
            final(self).spec_state() == old(self).spec_state(),
            final(self).wf() == old(self).wf(),
    {
        self.wait_queue = None;
    }

    pub fn set_wait_timed_out(&mut self, value: bool)
        ensures
            same_identity(*old(self), *final(self)),
            final(self).spec_wait_timed_out() == value,
            final(self).spec_priority() == old(self).spec_priority(),
            final(self).wf() == old(self).wf(),
    {
        self.wait_timed_out = value;
    }

    /// Whether the last wait timed out; the flag is cleared.
    pub fn take_wait_timed_out(&mut self) -> (r: bool)
        ensures
            same_identity(*old(self), *final(self)),
            r == old(self).spec_wait_timed_out(),
            !final(self).spec_wait_timed_out(),
            final(self).spec_priority() == old(self).spec_priority(),
            final(self).wf() == old(self).wf(),
    {
        let r = self.wait_timed_out;
        self.wait_timed_out = false;
        r
    }

    /// The outcome of the thread's last bounded wait: `Err(TimedOut)` if its
    /// deadline passed first. The flag is cleared.
    pub fn take_last_wait_outcome(&mut self) -> (r: Result<(), TimedOut>)
        ensures
            same_identity(*old(self), *final(self)),
            old(self).spec_wait_timed_out() ==> r == Err::<(), TimedOut>(TimedOut),
            !old(self).spec_wait_timed_out() ==> r is Ok,
            !final(self).spec_wait_timed_out(),
            final(self).spec_priority() == old(self).spec_priority(),
            final(self).wf() == old(self).wf(),
    {
        if self.take_wait_timed_out() {
            Err(TimedOut)
        } else {
            Ok(())
        }
    }

    pub fn set_pending_block_deadline(&mut self, deadline: Option<Instant>)
        ensures
            same_identity(*old(self), *final(self)),
            final(self).spec_pending_block_deadline() == deadline,
            final(self).spec_priority() == old(self).spec_priority(),
            final(self).wf() == old(self).wf(),
    {
        self.pending_block_deadline = deadline;
    }

    /// The deadline of the pending block, if any; it is cleared.
    pub fn take_pending_block_deadline(&mut self) -> (r: Option<Instant>)
        ensures
            same_identity(*old(self), *final(self)),
            r == old(self).spec_pending_block_deadline(),
            final(self).spec_pending_block_deadline() is None,
            final(self).spec_priority() == old(self).spec_priority(),
            final(self).wf() == old(self).wf(),
    {
        let r = self.pending_block_deadline;
        self.pending_block_deadline = None;
        r
    }

    /// Record the events the thread blocks on, or none.
    pub fn set_wait_events(&mut self, wait: Option<WaitEvents>)
        ensures
            same_identity(*old(self), *final(self)),
            final(self).spec_wait_events() == wait,
            final(self).spec_pending_events() == old(self).spec_pending_events(),
            final(self).spec_priority() == old(self).spec_priority(),
            final(self).wf() == old(self).wf(),
    {
        self.current_wait_events = wait;
    }

    /// Add `events` to the pending events; returns whether the thread is
    /// blocked on events that are now satisfied and must be resumed.
    pub fn send_events(&mut self, events: Events) -> (r: bool)
        ensures
            same_identity(*old(self), *final(self)),
            final(self).spec_pending_events() == old(self).spec_pending_events() | events,
            r == (match old(self).spec_wait_events() {
                Some(w) => spec_should_resume(w, old(self).spec_pending_events() | events),
                None => false,
            }),
            final(self).spec_wait_events() == old(self).spec_wait_events(),
            final(self).spec_priority() == old(self).spec_priority(),
            final(self).wf() == old(self).wf(),
    {
        let all_pending = self.pending_events | events;
        self.pending_events = all_pending;
        match self.current_wait_events {
            Some(w) => w.should_resume(all_pending),
            None => false,
        }
    }

    pub fn peek_pending_events(&self) -> (r: Events)
        ensures
            r == self.spec_pending_events(),
    {
        self.pending_events
    }
}

/// Deferred operation: resume the thread.
pub const OP_RESUME: u32 = 1u32;

/// Deferred operation: wake the thread from a timed wait.
pub const OP_WAKEUP: u32 = 2u32;

/// Deferred operation: start the thread.
pub const OP_START: u32 = 8u32;

/// Deferred operation: resume the thread if its pending events satisfy its
/// wait.
pub const OP_CHECK_EVENTS: u32 = 16u32;

/// Deferred operation: requeue the thread in its wait queue at its current
/// priority.
pub const OP_REINSERT_WAIT_QUEUE: u32 = 32u32;

/// The deferred operations of `ops` that are attempted: start, resume and
/// wakeup whenever posted; the events check only when the thread waits for
/// events that its pending events satisfy; the requeue only when the thread
/// is queued on a wait queue.
pub open spec fn spec_ops_to_attempt(ops: u32, wait: Option<WaitEvents>, pending: Events, queued: bool) -> u32 {
    (ops & (OP_START | OP_RESUME | OP_WAKEUP)) | (if ops & OP_CHECK_EVENTS != 0 && (wait matches Some(
        w,
    ) && spec_should_resume(w, pending)) {
        OP_CHECK_EVENTS
    } else {
        0
    }) | (if ops & OP_REINSERT_WAIT_QUEUE != 0 && queued {
        OP_REINSERT_WAIT_QUEUE
    } else {
        0
    })
}

impl RawThread {
    /// The deferred operations of `ops` to attempt for this thread now.
    pub fn ops_to_attempt(&self, ops: u32) -> (r: u32)
        ensures
            r == spec_ops_to_attempt(ops, self.spec_wait_events(), self.spec_pending_events(), self.spec_wait_queue() is Some),
    {
        let satisfied = match self.current_wait_events {
            Some(w) => w.should_resume(self.pending_events),
            None => false,
        };
        let check: u32 = if ops & OP_CHECK_EVENTS != 0 && satisfied {
            OP_CHECK_EVENTS
        } else {
            0
        };
        let reinsert: u32 = if ops & OP_REINSERT_WAIT_QUEUE != 0 && self.wait_queue.is_some() {
            OP_REINSERT_WAIT_QUEUE
        } else {
            0
        };
        (ops & (OP_START | OP_RESUME | OP_WAKEUP)) | check | reinsert
    }
}

/// Completing a batch of deferred operations: of those attempted, the ones
/// that failed (the scheduler's lock was unavailable) are posted again. Returns
/// whether the batch is done, and the operations to post again.
pub fn complete_pending_ops(attempted: u32, failed: u32) -> (r: (bool, u32))
    ensures
        r.1 == attempted & failed,
        r.0 == (r.1 == 0),
{
    let retry = attempted & failed;
    (retry == 0, retry)
}

/// The source of thread identifiers: the next one to hand out. Identifiers
/// start after the idle thread's, and the counter wraps around as an atomic
/// fetch-and-add does.
pub struct ThreadIdAllocator {
    next: u32,
}

impl ThreadIdAllocator {
    pub closed spec fn spec_next(&self) -> u32 {
        self.next
    }

    pub fn new() -> (r: ThreadIdAllocator)
        ensures
            r.spec_next() == IDLE_THREAD_ID,
    {
        ThreadIdAllocator { next: IDLE_THREAD_ID }
    }

    /// Hand out the next identifier.
    pub fn allocate(&mut self) -> (r: u32)
        ensures
            r == old(self).spec_next(),
            final(self).spec_next() == (if old(self).spec_next() == u32::MAX {
                0
            } else {
                (old(self).spec_next() + 1) as u32
            }),
    {
        let r = self.next;
        self.next = if self.next == u32::MAX {
            0
        } else {
            self.next + 1
        };
        r
    }
}

/// How a started thread is made runnable.
#[derive(Copy, Clone, Debug, PartialEq, Eq, Structural)]
pub enum StartAction {
    /// The thread belongs to the current core: resume it through this core's
    /// scheduler now.
    ResumeNow,
    /// The thread belongs to another core: post `OP_START` to that core's
    /// deferred-work queue.
    PostStart,
}

/// A thread record being set up, before its entry point is attached.
pub struct ThreadBuilder {
    thread: RawThread,
}

impl ThreadBuilder {
    pub closed spec fn spec_thread(&self) -> RawThread {
        self.thread
    }

    pub fn new(thread: RawThread) -> (r: ThreadBuilder)
        ensures
            r.spec_thread() == thread,
    {
        ThreadBuilder { thread }
    }

    pub fn name(&self) -> (r: &'static str)
        ensures
            r == self.spec_thread().spec_name(),
    {
        self.thread.name
    }

    pub fn base_priority(&self) -> (r: Priority)
        ensures
            r == self.spec_thread().spec_base_priority(),
    {
        self.thread.base_priority
    }

    /// Attach the entry point: the thread gets the next identifier.
    pub fn attach(self, ids: &mut ThreadIdAllocator) -> (r: ThreadHandle)
        ensures
            r.spec_thread().spec_thread_id() == old(ids).spec_next(),
            r.spec_thread().spec_name() == self.spec_thread().spec_name(),
            r.spec_thread().spec_base_priority() == self.spec_thread().spec_base_priority(),
            r.spec_thread().spec_core() == self.spec_thread().spec_core(),
            r.spec_thread().spec_state() == self.spec_thread().spec_state(),
            r.spec_thread().spec_priority() == self.spec_thread().spec_priority(),
            r.spec_thread().wf() == self.spec_thread().wf(),
            final(ids).spec_next() == (if old(ids).spec_next() == u32::MAX {
                0
            } else {
                (old(ids).spec_next() + 1) as u32
            }),
    {
        let mut thread = self.thread;
        let id = ids.allocate();
        thread.set_thread_id(id);
        ThreadHandle { thread }
    }
}

/// A thread whose entry point is attached, not yet started.
pub struct ThreadHandle {
    thread: RawThread,
}

impl ThreadHandle {
    pub closed spec fn spec_thread(&self) -> RawThread {
        self.thread
    }

    pub fn name(&self) -> (r: &'static str)
        ensures
            r == self.spec_thread().spec_name(),
    {
        self.thread.name
    }

    pub fn base_priority(&self) -> (r: Priority)
        ensures
            r == self.spec_thread().spec_base_priority(),
    {
        self.thread.base_priority
    }

    /// Start the thread from core `current`: it moves to the started state,
    /// and is resumed here or handed to its own core. Starting a thread twice
    /// is a fault, which `requires` leaves out.
    pub fn start(self, current: CoreId) -> (r: (RawThread, StartAction))
        requires
            self.spec_thread().spec_state() == ThreadExecutionState::Created,
        ensures
            same_identity(self.spec_thread(), r.0),
            r.0.spec_state() == ThreadExecutionState::Started,
            r.0.spec_priority() == self.spec_thread().spec_priority(),
            r.0.wf() == self.spec_thread().wf(),
            r.1 == (if self.spec_thread().spec_core() == current {
                StartAction::ResumeNow
            } else {
                StartAction::PostStart
            }),
    {
        let mut thread = self.thread;
        thread.start();
        let action = if thread.core == current {
            StartAction::ResumeNow
        } else {
            StartAction::PostStart
        };
        (thread, action)
    }
}

/// Taking a scoped ceiling lock and then releasing it gives the thread back
/// the locks it held and the priority it ran at, provided no lock it already
/// held carries the same identifier.
pub proof fn lemma_scoped_lock_roundtrip(before: RawThread, during: RawThread, after: RawThread, lock: CeilingLockEntry)
    requires
        before.wf(),
        after.wf(),
        forall|i: int| 0 <= i < before.spec_ceiling_locks().len() ==> #[trigger] before.spec_ceiling_locks()[i].lock_id != lock.lock_id,
        during.spec_ceiling_locks() == before.spec_ceiling_locks().insert(
            ceiling_position(before.spec_ceiling_locks(), lock.ceiling),
            lock,
        ),
        after.spec_ceiling_locks() == without_lock(during.spec_ceiling_locks(), lock.lock_id),
        after.spec_nesting_lock_priority() == before.spec_nesting_lock_priority(),
        after.spec_inherited_priority() == before.spec_inherited_priority(),
        after.spec_base_priority() == before.spec_base_priority(),
    ensures
        after.spec_ceiling_locks() == before.spec_ceiling_locks(),
        after.spec_priority() == before.spec_priority(),
{
    let l = before.spec_ceiling_locks();
    lemma_ceiling_position(l, lock.ceiling);
    let p = ceiling_position(l, lock.ceiling);
    let d = during.spec_ceiling_locks();
    assert forall|j: int| 0 <= j < p implies #[trigger] d[j].lock_id != lock.lock_id by {
        assert(d[j] == l[j]);
    }
    lemma_without_lock(d, lock.lock_id, p);
    assert(d.remove(p) =~= l);
}

/// A well-formed thread runs at its effective priority, and holds its
/// ceiling locks highest ceiling first.
pub proof fn lemma_wf_priority(t: RawThread)
    requires
        t.wf(),
    ensures
        t.spec_priority() == spec_effective_priority(
            t.spec_base_priority(),
            t.spec_lock_priority(),
            t.spec_inherited_priority(),
        ),
        ceiling_sorted(t.spec_ceiling_locks()),
{
}

/// The effective priority is at least the inherited priority.
proof fn lemma_effective_at_least_inherited(
    base: Priority,
    lock: PriorityOpt,
    inherited: PriorityOpt,
    p: Priority,
)
    requires
        spec_priority(inherited) matches Some(q) && rank(q) >= rank(p),
    ensures
        rank(spec_effective_priority(base, lock, inherited)) >= rank(p),
{
    let b = spec_max_valid(base, lock);
    crate::priority::lemma_max_laws(b, spec_priority(inherited).unwrap(), b);
}

/// The effective priority is at least the nesting-lock ceiling.
pub proof fn lemma_effective_at_least_lock(
    base: Priority,
    nesting: PriorityOpt,
    l: Seq<CeilingLockEntry>,
    inherited: PriorityOpt,
    p: Priority,
)
    requires
        spec_priority(nesting) matches Some(q) && rank(q) >= rank(p),
    ensures
        rank(spec_effective_priority(base, spec_lock_priority(nesting, l), inherited)) >= rank(p),
{
    let q = spec_priority(nesting).unwrap();
    let lp = spec_lock_priority(nesting, l);
    match spec_priority(ceiling_head(l)) {
        Some(h) => {
            crate::priority::lemma_max_laws(q, h, h);
        },
        None => {},
    }
    let lq = spec_priority(lp).unwrap();
    assert(rank(lq) >= rank(q));
    crate::priority::lemma_max_laws(base, lq, lq);
    let b = spec_max_valid(base, lp);
    match spec_priority(inherited) {
        Some(i) => {
            crate::priority::lemma_max_laws(b, i, i);
        },
        None => {},
    }
}

/// A thread runs at least at its base priority, at least at the ceiling of
/// every ceiling lock it holds, and at least at any inherited priority; and
/// its priority is one of these.
pub proof fn lemma_thread_priority_bounds(t: RawThread)
    requires
        t.wf(),
    ensures
        rank(t.spec_priority()) >= rank(t.spec_base_priority()),
        forall|i: int|
            0 <= i < t.spec_ceiling_locks().len() ==> rank(t.spec_priority()) >= rank(
                #[trigger] t.spec_ceiling_locks()[i].ceiling,
            ),
        spec_priority(t.spec_nesting_lock_priority()) matches Some(q) ==> rank(t.spec_priority())
            >= rank(q),
        spec_priority(t.spec_inherited_priority()) matches Some(q) ==> rank(t.spec_priority())
            >= rank(q),
{
    let l = t.spec_ceiling_locks();
    let n = t.spec_nesting_lock_priority();
    let inh = t.spec_inherited_priority();
    let lp = spec_lock_priority(n, l);
    let b = spec_max_valid(t.spec_base_priority(), lp);
    match spec_priority(lp) {
        Some(q) => {
            crate::priority::lemma_max_laws(t.spec_base_priority(), q, q);
        },
        None => {},
    }
    match spec_priority(inh) {
        Some(q) => {
            crate::priority::lemma_max_laws(b, q, q);
        },
        None => {},
    }
    assert(rank(t.spec_priority()) >= rank(b));
    match spec_priority(n) {
        Some(q) => {
            lemma_effective_at_least_lock(t.spec_base_priority(), n, l, inh, q);
        },
        None => {},
    }
    assert forall|i: int| 0 <= i < l.len() implies rank(t.spec_priority()) >= rank(
        #[trigger] l[i].ceiling,
    ) by {
        let h = l[0].ceiling;
        assert(rank(h) >= rank(l[i].ceiling));
        match spec_priority(n) {
            Some(q) => {
                crate::priority::lemma_max_laws(q, h, h);
            },
            None => {},
        }
        let lq = spec_priority(lp).unwrap();
        assert(rank(lq) >= rank(h));
        crate::priority::lemma_max_laws(t.spec_base_priority(), lq, lq);
    }
}

} // verus!
