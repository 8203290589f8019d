//! The priority-inheritance lock: a thread that finds the lock held waits on
//! it and lends its priority to the owner, so that the owner runs at least at
//! the priority of every waiter until it releases the lock.
use crate::lock::TryLockError;
use crate::notify::{queued, Notify, WaitEntry};
use crate::priority::{rank, spec_opt_max, spec_priority, spec_some, Priority, PriorityOpt};
use crate::protected::WaitMarker;
use crate::thread::{same_identity, without_inheritance_lock, CoreId, RawThread};
use vstd::prelude::*;

verus! {

/// The owner of a lock, by thread identifier.
pub struct AtomicOwner {
    owner: Option<u32>,
}

impl AtomicOwner {
    pub closed spec fn spec_owner(&self) -> Option<u32> {
        self.owner
    }

    pub fn new() -> (r: AtomicOwner)
        ensures
            r.spec_owner() is None,
    {
        AtomicOwner { owner: None }
    }

    /// Make `thread_id` the owner if there is none; otherwise return the
    /// owner. Taking ownership again by the owner is a fault, which
    /// `requires` leaves out.
    pub fn take_ownership(&mut self, thread_id: u32) -> (r: Result<(), u32>)
        requires
            old(self).spec_owner() != Some(thread_id),
        ensures
            old(self).spec_owner() is None ==> r is Ok && final(self).spec_owner() == Some(thread_id),
            old(self).spec_owner() matches Some(o) ==> r == Err::<(), u32>(o) && final(self).spec_owner() == old(self).spec_owner(),
    {
        match self.owner {
            None => {
                self.owner = Some(thread_id);
                Ok(())
            },
            Some(o) => Err(o),
        }
    }

    /// Clear the owner `thread_id`; returns it. Releasing by another thread
    /// than the owner is a fault, which `requires` leaves out.
    pub fn release_ownership(&mut self, thread_id: u32) -> (r: u32)
        requires
            old(self).spec_owner() == Some(thread_id),
        ensures
            final(self).spec_owner() is None,
            r == thread_id,
    {
        self.owner = None;
        thread_id
    }
}

pub struct InheritanceLock {
    owner: AtomicOwner,
    wait_list: Notify,
    core: CoreId,
    lock_id: u32,
}

/// Held while an inheritance lock is taken; give it back to release.
pub struct InheritanceLockGuard {
    seal: (),
}

impl InheritanceLock {
    pub closed spec fn wf(&self) -> bool {
        self.wait_list.wf()
    }

    pub closed spec fn spec_owner(&self) -> Option<u32> {
        self.owner.spec_owner()
    }

    pub closed spec fn spec_waiters(&self) -> Seq<WaitEntry> {
        self.wait_list@
    }

    pub closed spec fn spec_core(&self) -> CoreId {
        self.core
    }

    pub closed spec fn spec_lock_id(&self) -> u32 {
        self.lock_id
    }

    pub fn new(core: CoreId, lock_id: u32) -> (r: InheritanceLock)
        ensures
            r.wf(),
            r.spec_owner() is None,
            r.spec_waiters().len() == 0,
            r.spec_core() == core,
            r.spec_lock_id() == lock_id,
    {
        InheritanceLock { owner: AtomicOwner::new(), wait_list: Notify::new(), core, lock_id }
    }

    /// Try to take the lock for `thread` on core `current`, the lock's core:
    /// succeeds if the lock is free, recording it among the thread's held
    /// inheritance locks; otherwise `Err(WouldBlock)` and nothing changes.
    /// Taking a free lock while holding a ceiling lock, and taking it again
    /// while owning it, are faults, which `requires` leaves out.
    pub fn try_lock(&mut self, thread: &mut RawThread, current: CoreId) -> (r: Result<InheritanceLockGuard, TryLockError>)
        requires
            current == old(self).spec_core(),
            old(self).spec_owner() is None ==> old(thread).spec_lock_priority() is Absent,
            old(self).spec_owner() != Some(old(thread).spec_thread_id()),
        ensures
            r is Ok <==> old(self).spec_owner() is None,
            r is Ok ==> final(self).spec_owner() == Some(old(thread).spec_thread_id())
                && final(thread).spec_inheritance_locks() == old(thread).spec_inheritance_locks().push(old(self).spec_lock_id())
                && final(thread).spec_priority() == old(thread).spec_priority(),
            r is Err ==> final(self).spec_owner() == old(self).spec_owner() && *final(thread) == *old(thread),
            final(self).spec_waiters() == old(self).spec_waiters(),
            final(self).wf() == old(self).wf(),
            final(self).spec_core() == old(self).spec_core(),
            final(thread).wf() == old(thread).wf(),
            same_identity(*old(thread), *final(thread)),
    {
        self.try_lock_unchecked(thread)
    }

    /// One step of a blocking take by `thread`: as [`try_lock`](Self::try_lock),
    /// but a held lock answers with the owner's identifier, for
    /// [`wait_on_owner`](Self::wait_on_owner).
    pub fn lock(&mut self, thread: &mut RawThread, current: CoreId) -> (r: Result<InheritanceLockGuard, u32>)
        requires
            current == old(self).spec_core(),
            old(self).spec_owner() is None ==> old(thread).spec_lock_priority() is Absent,
            old(self).spec_owner() != Some(old(thread).spec_thread_id()),
        ensures
            r is Ok <==> old(self).spec_owner() is None,
            r is Ok ==> final(self).spec_owner() == Some(old(thread).spec_thread_id())
                && final(thread).spec_inheritance_locks() == old(thread).spec_inheritance_locks().push(old(self).spec_lock_id()),
            r matches Err(o) ==> Some(o) == old(self).spec_owner() && *final(thread) == *old(thread)
                && final(self).spec_owner() == old(self).spec_owner(),
            final(self).spec_waiters() == old(self).spec_waiters(),
            final(self).wf() == old(self).wf(),
            final(self).spec_core() == old(self).spec_core(),
            final(thread).wf() == old(thread).wf(),
            same_identity(*old(thread), *final(thread)),
    {
        self.lock_unchecked(thread)
    }

    pub fn try_lock_unchecked(&mut self, thread: &mut RawThread) -> (r: Result<InheritanceLockGuard, TryLockError>)
        requires
            old(self).spec_owner() is None ==> old(thread).spec_lock_priority() is Absent,
            old(self).spec_owner() != Some(old(thread).spec_thread_id()),
        ensures
            r is Ok <==> old(self).spec_owner() is None,
            r is Ok ==> final(self).spec_owner() == Some(old(thread).spec_thread_id())
                && final(thread).spec_inheritance_locks() == old(thread).spec_inheritance_locks().push(old(self).spec_lock_id())
                && final(thread).spec_priority() == old(thread).spec_priority(),
            r is Err ==> final(self).spec_owner() == old(self).spec_owner() && *final(thread) == *old(thread),
            final(self).spec_waiters() == old(self).spec_waiters(),
            final(self).wf() == old(self).wf(),
            final(self).spec_core() == old(self).spec_core(),
            final(thread).wf() == old(thread).wf(),
            same_identity(*old(thread), *final(thread)),
    {
        match self.owner.take_ownership(thread.thread_id()) {
            Ok(_) => {
                thread.inheritance_lock_acquired(self.lock_id);
                Ok(InheritanceLockGuard { seal: () })
            },
            Err(_) => Err(TryLockError::WouldBlock),
        }
    }

    /// One step of a blocking take by `thread`, without checking the core:
    /// as [`try_lock`](Self::try_lock),
    /// but a held lock answers with the owner's identifier, for
    /// [`wait_on_owner`](Self::wait_on_owner).
    pub fn lock_unchecked(&mut self, thread: &mut RawThread) -> (r: Result<InheritanceLockGuard, u32>)
        requires
            old(self).spec_owner() is None ==> old(thread).spec_lock_priority() is Absent,
            old(self).spec_owner() != Some(old(thread).spec_thread_id()),
        ensures
            r is Ok <==> old(self).spec_owner() is None,
            r is Ok ==> final(self).spec_owner() == Some(old(thread).spec_thread_id())
                && final(thread).spec_inheritance_locks() == old(thread).spec_inheritance_locks().push(old(self).spec_lock_id()),
            r matches Err(o) ==> Some(o) == old(self).spec_owner() && *final(thread) == *old(thread)
                && final(self).spec_owner() == old(self).spec_owner(),
            final(self).spec_waiters() == old(self).spec_waiters(),
            final(self).wf() == old(self).wf(),
            final(self).spec_core() == old(self).spec_core(),
            final(thread).wf() == old(thread).wf(),
            same_identity(*old(thread), *final(thread)),
    {
        match self.owner.take_ownership(thread.thread_id()) {
            Ok(_) => {
                thread.inheritance_lock_acquired(self.lock_id);
                Ok(InheritanceLockGuard { seal: () })
            },
            Err(o) => Err(o),
        }
    }

    /// A thread found the lock held by `owner`: the owner inherits the
    /// waiter's priority and the waiter is queued on the lock at its waiting
    /// priority (which leaves out the nesting locks it holds meanwhile). Returns whether
    /// the owner's priority changed, and the marker that suspends the waiter.
    pub fn wait_on_owner(&mut self, waiter: &RawThread, owner: &mut RawThread) -> (r: (bool, WaitMarker))
        requires
            old(self).wf(),
            old(owner).wf(),
            old(self).spec_owner() == Some(old(owner).spec_thread_id()),
            waiter.spec_thread_id() != old(owner).spec_thread_id(),
        ensures
            final(self).wf(),
            final(owner).wf(),
            rank(final(owner).spec_priority()) >= rank(waiter.spec_priority()),
            final(owner).spec_inherited_priority() == spec_opt_max(
                old(owner).spec_inherited_priority(),
                spec_some(waiter.spec_priority()),
            ),
            r.0 == (final(owner).spec_priority() != old(owner).spec_priority()),
            final(self).spec_waiters() == queued(
                old(self).spec_waiters(),
                WaitEntry { thread_id: waiter.spec_thread_id(), priority: waiter.spec_waiting_priority() },
            ),
            final(self).spec_owner() == old(self).spec_owner(),
            same_identity(*old(owner), *final(owner)),
    {
        let current_priority = waiter.priority();
        let changed = owner.inherit_priority(current_priority);
        let marker = self.wait_list.arm(WaitEntry { thread_id: waiter.thread_id(), priority: waiter.waiting_priority() });
        (changed, marker)
    }

    /// Release the lock owned by `thread`: drop it from the thread's held
    /// locks (dropping the inherited priority once none is left), clear the
    /// owner and wake the first waiter, which is returned. Releasing a lock
    /// owned by another thread is a fault, which `requires` leaves out.
    pub fn release(&mut self, thread: &mut RawThread, guard: InheritanceLockGuard) -> (r: Option<WaitEntry>)
        requires
            old(self).wf(),
            old(thread).wf(),
            old(self).spec_owner() == Some(old(thread).spec_thread_id()),
        ensures
            final(self).wf(),
            final(thread).wf(),
            final(self).spec_owner() is None,
            old(self).spec_waiters().len() == 0 ==> r is None && final(self).spec_waiters() == old(self).spec_waiters(),
            old(self).spec_waiters().len() > 0 ==> r == Some(old(self).spec_waiters()[0])
                && final(self).spec_waiters() == old(self).spec_waiters().drop_first(),
            final(thread).spec_inheritance_locks() == without_inheritance_lock(
                old(thread).spec_inheritance_locks(),
                old(self).spec_lock_id(),
            ),
            final(thread).spec_inheritance_locks().len() == 0 ==> final(thread).spec_inherited_priority() is Absent,
            final(thread).spec_ceiling_locks() == old(thread).spec_ceiling_locks(),
            final(thread).spec_nesting_lock_priority() == old(thread).spec_nesting_lock_priority(),
            final(self).spec_lock_id() == old(self).spec_lock_id(),
            final(self).spec_core() == old(self).spec_core(),
            same_identity(*old(thread), *final(thread)),
    {
        let _ = thread.inheritance_lock_released(self.lock_id);
        let _ = self.owner.release_ownership(thread.thread_id());
        self.wait_list.notify_one()
    }
}

/// The inherited priority of an owner that started from `init` after the
/// waiters of priorities `ps`, in turn, waited on its lock.
pub open spec fn inherited_after(init: PriorityOpt, ps: Seq<Priority>) -> PriorityOpt
    decreases ps.len(),
{
    if ps.len() == 0 {
        init
    } else {
        spec_opt_max(inherited_after(init, ps.drop_last()), spec_some(ps.last()))
    }
}

/// The owner runs at least at the priority of every waiter: after any
/// sequence of waits on its lock, each of which raises its inherited priority
/// as [`InheritanceLock::wait_on_owner`] does, the inherited priority is at
/// least every waiter's priority, and it only grows.
pub proof fn lemma_owner_at_least_every_waiter(init: PriorityOpt, ps: Seq<Priority>)
    ensures
        spec_priority(inherited_after(init, ps)) is Some || ps.len() == 0,
        forall|i: int| 0 <= i < ps.len() ==> rank(#[trigger] ps[i]) <= rank(spec_priority(inherited_after(init, ps))->0),
        spec_priority(init) matches Some(q) ==> rank(q) <= rank(spec_priority(inherited_after(init, ps))->0),
    decreases ps.len(),
{
    if ps.len() > 0 {
        let rest = ps.drop_last();
        lemma_owner_at_least_every_waiter(init, rest);
        let prev = inherited_after(init, rest);
        let p = ps.last();
        match spec_priority(prev) {
            Some(q) => {
                crate::priority::lemma_max_laws(q, p, p);
            },
            None => {},
        }
        assert forall|i: int| 0 <= i < ps.len() implies rank(#[trigger] ps[i]) <= rank(
            spec_priority(inherited_after(init, ps))->0,
        ) by {
            if i < ps.len() - 1 {
                assert(ps[i] == rest[i]);
            }
        }
    }
}

/// An inheritance lock whose core is part of its type.
pub struct CoreInheritanceLock<const CORE: usize> {
    inner: InheritanceLock,
}

/// Held while a `CoreInheritanceLock` is taken.
pub struct CoreInheritanceLockGuard<const CORE: usize> {
    inner: InheritanceLockGuard,
}

impl<const CORE: usize> CoreInheritanceLock<CORE> {
    pub closed spec fn spec_owner(&self) -> Option<u32> {
        self.inner.spec_owner()
    }

    /// The inner lock belongs to core `CORE`.
    pub closed spec fn wf(&self) -> bool {
        self.inner.spec_core() == CORE
    }

    pub fn new(lock_id: u32) -> (r: CoreInheritanceLock<CORE>)
        ensures
            r.wf(),
            r.spec_owner() is None,
    {
        CoreInheritanceLock { inner: InheritanceLock::new(CORE, lock_id) }
    }

    /// One step of a blocking take on core `CORE`; see
    /// [`InheritanceLock::lock`].
    pub fn lock(&mut self, thread: &mut RawThread, current: CoreId) -> (r: Result<CoreInheritanceLockGuard<CORE>, u32>)
        requires
            current == CORE,
            old(self).wf(),
            old(self).spec_owner() is None ==> old(thread).spec_lock_priority() is Absent,
            old(self).spec_owner() != Some(old(thread).spec_thread_id()),
        ensures
            final(self).wf(),
            r is Ok <==> old(self).spec_owner() is None,
            r is Ok ==> final(self).spec_owner() == Some(old(thread).spec_thread_id()),
            r matches Err(o) ==> Some(o) == old(self).spec_owner(),
    {
        match self.inner.lock(thread, CORE) {
            Ok(inner) => Ok(CoreInheritanceLockGuard { inner }),
            Err(o) => Err(o),
        }
    }

    /// Try to take the lock on core `CORE`; see [`InheritanceLock::try_lock`].
    pub fn try_lock(&mut self, thread: &mut RawThread, current: CoreId) -> (r: Result<CoreInheritanceLockGuard<CORE>, TryLockError>)
        requires
            current == CORE,
            old(self).wf(),
            old(self).spec_owner() is None ==> old(thread).spec_lock_priority() is Absent,
            old(self).spec_owner() != Some(old(thread).spec_thread_id()),
        ensures
            final(self).wf(),
            r is Ok <==> old(self).spec_owner() is None,
            r is Ok ==> final(self).spec_owner() == Some(old(thread).spec_thread_id()),
            r is Err ==> final(self).spec_owner() == old(self).spec_owner(),
    {
        match self.inner.try_lock(thread, CORE) {
            Ok(inner) => Ok(CoreInheritanceLockGuard { inner }),
            Err(e) => Err(e),
        }
    }
}

} // verus!
