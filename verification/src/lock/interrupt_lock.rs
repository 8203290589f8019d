//! The interrupt lock: a critical section that masks all interrupts on the
//! current core. Nested sections unmask only when the outermost one ends.
use crate::lock::TryLockError;
use crate::thread::CoreId;
use vstd::prelude::*;

verus! {

/// One core's interrupt-lock nesting depth and interrupt mask.
pub struct InterruptNesting {
    depth: usize,
    interrupts_enabled: bool,
}

impl InterruptNesting {
    /// Interrupts are enabled exactly when no interrupt lock is held.
    pub closed spec fn wf(&self) -> bool {
        self.interrupts_enabled == (self.depth == 0)
    }

    pub closed spec fn spec_depth(&self) -> nat {
        self.depth as nat
    }

    pub closed spec fn spec_interrupts_enabled(&self) -> bool {
        self.interrupts_enabled
    }

    /// A core with no interrupt lock held and interrupts enabled.
    pub fn new() -> (r: InterruptNesting)
        ensures
            r.wf(),
            r.spec_depth() == 0,
            r.spec_interrupts_enabled(),
    {
        InterruptNesting { depth: 0, interrupts_enabled: true }
    }

    pub fn depth(&self) -> (r: usize)
        ensures
            r == self.spec_depth(),
    {
        self.depth
    }

    pub fn interrupts_enabled(&self) -> (r: bool)
        ensures
            r == self.spec_interrupts_enabled(),
    {
        self.interrupts_enabled
    }
}

/// Mask interrupts and enter one more level of nesting.
pub fn acquire_interrupt_lock_inner(n: &mut InterruptNesting) -> (r: bool)
    requires
        old(n).wf(),
        old(n).spec_depth() < usize::MAX,
    ensures
        final(n).wf(),
        final(n).spec_depth() == old(n).spec_depth() + 1,
        !final(n).spec_interrupts_enabled(),
        r,
{
    n.interrupts_enabled = false;
    n.depth = n.depth + 1;
    true
}

/// Leave one level of nesting; the outermost release unmasks interrupts.
pub fn release_interrupt_lock_inner(n: &mut InterruptNesting, saved: bool)
    requires
        old(n).wf(),
        old(n).spec_depth() > 0,
    ensures
        final(n).wf(),
        final(n).spec_depth() == old(n).spec_depth() - 1,
        final(n).spec_interrupts_enabled() == (old(n).spec_depth() == 1),
{
    n.depth = n.depth - 1;
    if n.depth == 0 {
        n.interrupts_enabled = true;
    }
}

/// Taking and then releasing the interrupt lock leaves the nesting depth and
/// the interrupt mask as they were.
pub proof fn lemma_interrupt_lock_balanced(before: InterruptNesting, held: InterruptNesting, after: InterruptNesting)
    requires
        before.wf(),
        held.wf(),
        after.wf(),
        held.spec_depth() == before.spec_depth() + 1,
        after.spec_depth() == held.spec_depth() - 1,
    ensures
        after.spec_depth() == before.spec_depth(),
        after.spec_interrupts_enabled() == before.spec_interrupts_enabled(),
        !held.spec_interrupts_enabled(),
{
}

/// Witness that the interrupt lock is held on core `core`.
#[derive(Clone, Copy, Debug)]
pub struct InterruptLockKey {
    pub core: CoreId,
}

/// Witness that the interrupt lock is held on core `CORE`.
#[derive(Clone, Copy, Debug)]
pub struct CoreInterruptLockKey<const CORE: usize> {
    seal: (),
}

impl InterruptLockKey {
    pub fn new(core: CoreId) -> (r: InterruptLockKey)
        ensures
            r.core == core,
    {
        InterruptLockKey { core }
    }

    /// The key for the core it was issued on. Lifting to another core is a
    /// fault, which `requires` leaves out.
    pub fn lift<const CORE: usize>(self) -> (r: CoreInterruptLockKey<CORE>)
        requires
            self.core == CORE,
        ensures
            r == CoreInterruptLockKey::<CORE>::spec_key(),
    {
        CoreInterruptLockKey { seal: () }
    }
}

impl<const CORE: usize> CoreInterruptLockKey<CORE> {
    /// The key value (keys carry no data).
    pub closed spec fn spec_key() -> CoreInterruptLockKey<CORE> {
        CoreInterruptLockKey { seal: () }
    }

    pub fn new() -> (r: CoreInterruptLockKey<CORE>)
        ensures
            r == Self::spec_key(),
    {
        CoreInterruptLockKey { seal: () }
    }

    /// The key without its core in the type.
    pub fn erase(self) -> (r: InterruptLockKey)
        ensures
            r.core == CORE,
    {
        InterruptLockKey { core: CORE }
    }
}

/// A scoped interrupt lock bound to one core.
pub struct InterruptLock {
    owned: bool,
    core: CoreId,
}

/// Held while a scoped interrupt lock is taken; give it back to release.
pub struct InterruptLockGuard {
    seal: (),
}

impl InterruptLock {
    pub closed spec fn spec_owned(&self) -> bool {
        self.owned
    }

    pub closed spec fn spec_core(&self) -> CoreId {
        self.core
    }

    pub fn new(core: CoreId) -> (r: InterruptLock)
        ensures
            r.spec_core() == core,
            !r.spec_owned(),
    {
        InterruptLock { owned: false, core }
    }

    fn acquire_scoped_lock(&mut self, n: &mut InterruptNesting)
        requires
            old(n).wf(),
            old(n).spec_depth() < usize::MAX,
            !old(self).spec_owned(),
        ensures
            final(n).wf(),
            final(n).spec_depth() == old(n).spec_depth() + 1,
            !final(n).spec_interrupts_enabled(),
            final(self).spec_owned(),
            final(self).spec_core() == old(self).spec_core(),
    {
        let _ = acquire_interrupt_lock_inner(n);
        self.owned = true;
    }

    fn release_scoped_lock(&mut self, n: &mut InterruptNesting)
        requires
            old(n).wf(),
            old(self).spec_owned() ==> old(n).spec_depth() > 0,
        ensures
            final(n).wf(),
            !final(self).spec_owned(),
            final(self).spec_core() == old(self).spec_core(),
            old(self).spec_owned() ==> final(n).spec_depth() == old(n).spec_depth() - 1
                && final(n).spec_interrupts_enabled() == (old(n).spec_depth() == 1),
            !old(self).spec_owned() ==> *final(n) == *old(n),
    {
        if self.owned {
            self.owned = false;
            release_interrupt_lock_inner(n, true);
        }
    }

    /// Take the lock on the current core `current`. Taking it on another
    /// core than its own, or taking it again while held, is a fault, which
    /// `requires` leaves out.
    pub fn lock(&mut self, n: &mut InterruptNesting, current: CoreId) -> (r: InterruptLockGuard)
        requires
            current == old(self).spec_core(),
            old(n).wf(),
            old(n).spec_depth() < usize::MAX,
            !old(self).spec_owned(),
        ensures
            final(n).wf(),
            final(n).spec_depth() == old(n).spec_depth() + 1,
            !final(n).spec_interrupts_enabled(),
            final(self).spec_owned(),
            final(self).spec_core() == old(self).spec_core(),
    {
        self.acquire_scoped_lock(n);
        InterruptLockGuard { seal: () }
    }

    /// Like [`lock`](Self::lock); always succeeds.
    pub fn try_lock(&mut self, n: &mut InterruptNesting, current: CoreId) -> (r: Result<InterruptLockGuard, TryLockError>)
        requires
            current == old(self).spec_core(),
            old(n).wf(),
            old(n).spec_depth() < usize::MAX,
            !old(self).spec_owned(),
        ensures
            r is Ok,
            final(n).wf(),
            final(n).spec_depth() == old(n).spec_depth() + 1,
            final(self).spec_owned(),
            final(self).spec_core() == old(self).spec_core(),
    {
        Ok(self.lock(n, current))
    }

    /// Release the lock held through `guard`.
    pub fn unlock(&mut self, n: &mut InterruptNesting, guard: InterruptLockGuard)
        requires
            old(n).wf(),
            old(self).spec_owned() ==> old(n).spec_depth() > 0,
        ensures
            final(n).wf(),
            !final(self).spec_owned(),
            old(self).spec_owned() ==> final(n).spec_depth() == old(n).spec_depth() - 1,
            !old(self).spec_owned() ==> *final(n) == *old(n),
    {
        self.release_scoped_lock(n);
    }

    /// Run `f` with interrupts masked on core `current`, passing it the key.
    pub fn with<R, F: FnOnce(InterruptLockKey) -> R>(n: &mut InterruptNesting, current: CoreId, f: F) -> (r: R)
        requires
            old(n).wf(),
            old(n).spec_depth() < usize::MAX,
            f.requires((InterruptLockKey { core: current },)),
        ensures
            final(n).wf(),
            *final(n) == *old(n),
            f.ensures((InterruptLockKey { core: current },), r),
    {
        let ghost before = *n;
        let saved = acquire_interrupt_lock_inner(n);
        let key = InterruptLockKey::new(current);
        let result = f(key);
        release_interrupt_lock_inner(n, saved);
        assert(n.depth == before.depth);
        assert(n.interrupts_enabled == before.interrupts_enabled);
        result
    }

    /// Like [`with`](Self::with); always succeeds.
    pub fn try_with<R, F: FnOnce(InterruptLockKey) -> R>(n: &mut InterruptNesting, current: CoreId, f: F) -> (r: Result<R, TryLockError>)
        requires
            old(n).wf(),
            old(n).spec_depth() < usize::MAX,
            f.requires((InterruptLockKey { core: current },)),
        ensures
            final(n).wf(),
            *final(n) == *old(n),
            r matches Ok(v) && f.ensures((InterruptLockKey { core: current },), v),
    {
        Ok(Self::with(n, current, f))
    }

    /// Like [`with`](Self::with), for the core `core`. Running it on another
    /// core is a fault, which `requires` leaves out.
    pub fn with_core<R, F: FnOnce(InterruptLockKey) -> R>(n: &mut InterruptNesting, core: CoreId, current: CoreId, f: F) -> (r: R)
        requires
            current == core,
            old(n).wf(),
            old(n).spec_depth() < usize::MAX,
            f.requires((InterruptLockKey { core: current },)),
        ensures
            final(n).wf(),
            *final(n) == *old(n),
            f.ensures((InterruptLockKey { core: current },), r),
    {
        Self::with(n, current, f)
    }

    /// Like [`with_core`](Self::with_core); always succeeds.
    pub fn try_with_core<R, F: FnOnce(InterruptLockKey) -> R>(n: &mut InterruptNesting, core: CoreId, current: CoreId, f: F) -> (r: Result<R, TryLockError>)
        requires
            current == core,
            old(n).wf(),
            old(n).spec_depth() < usize::MAX,
            f.requires((InterruptLockKey { core: current },)),
        ensures
            final(n).wf(),
            *final(n) == *old(n),
            r matches Ok(v) && f.ensures((InterruptLockKey { core: current },), v),
    {
        Ok(Self::with_core(n, core, current, f))
    }
}

/// An interrupt lock whose core is part of its type.
pub struct CoreInterruptLock<const CORE: usize> {
    inner: InterruptLock,
}

/// Held while a `CoreInterruptLock` is taken.
pub struct CoreInterruptLockGuard<const CORE: usize> {
    seal: (),
}

impl<const CORE: usize> CoreInterruptLock<CORE> {
    pub closed spec fn spec_owned(&self) -> bool {
        self.inner.spec_owned()
    }

    pub closed spec fn spec_core(&self) -> CoreId {
        self.inner.spec_core()
    }

    pub fn new() -> (r: CoreInterruptLock<CORE>)
        ensures
            !r.spec_owned(),
            r.spec_core() == CORE,
    {
        CoreInterruptLock { inner: InterruptLock::new(CORE) }
    }

    fn lock_internal(&mut self, n: &mut InterruptNesting) -> (r: CoreInterruptLockGuard<CORE>)
        requires
            old(n).wf(),
            old(n).spec_depth() < usize::MAX,
            !old(self).spec_owned(),
        ensures
            final(n).wf(),
            final(n).spec_depth() == old(n).spec_depth() + 1,
            !final(n).spec_interrupts_enabled(),
            final(self).spec_owned(),
            final(self).spec_core() == old(self).spec_core(),
    {
        self.inner.acquire_scoped_lock(n);
        CoreInterruptLockGuard { seal: () }
    }

    /// Take the lock; must run on core `CORE`, which `requires` states.
    pub fn lock(&mut self, n: &mut InterruptNesting, current: CoreId) -> (r: CoreInterruptLockGuard<CORE>)
        requires
            current == CORE,
            old(n).wf(),
            old(n).spec_depth() < usize::MAX,
            !old(self).spec_owned(),
        ensures
            final(n).wf(),
            final(n).spec_depth() == old(n).spec_depth() + 1,
            !final(n).spec_interrupts_enabled(),
            final(self).spec_owned(),
            final(self).spec_core() == old(self).spec_core(),
    {
        self.lock_internal(n)
    }

    /// Like [`lock`](Self::lock); always succeeds.
    pub fn try_lock(&mut self, n: &mut InterruptNesting, current: CoreId) -> (r: Result<CoreInterruptLockGuard<CORE>, TryLockError>)
        requires
            current == CORE,
            old(n).wf(),
            old(n).spec_depth() < usize::MAX,
            !old(self).spec_owned(),
        ensures
            r is Ok,
            final(n).wf(),
            final(n).spec_depth() == old(n).spec_depth() + 1,
            final(self).spec_owned(),
    {
        Ok(self.lock(n, current))
    }

    /// Take the lock with a key that proves the caller is on core `CORE`.
    pub fn lock_with_core(&mut self, n: &mut InterruptNesting, core: &CoreInterruptLockKey<CORE>) -> (r: CoreInterruptLockGuard<CORE>)
        requires
            old(n).wf(),
            old(n).spec_depth() < usize::MAX,
            !old(self).spec_owned(),
        ensures
            final(n).wf(),
            final(n).spec_depth() == old(n).spec_depth() + 1,
            final(self).spec_owned(),
    {
        self.lock_internal(n)
    }

    /// Like [`lock_with_core`](Self::lock_with_core); always succeeds.
    pub fn try_lock_with_core(&mut self, n: &mut InterruptNesting, core: &CoreInterruptLockKey<CORE>) -> (r: Result<CoreInterruptLockGuard<CORE>, TryLockError>)
        requires
            old(n).wf(),
            old(n).spec_depth() < usize::MAX,
            !old(self).spec_owned(),
        ensures
            r is Ok,
            final(n).wf(),
            final(n).spec_depth() == old(n).spec_depth() + 1,
            final(self).spec_owned(),
    {
        Ok(self.lock_internal(n))
    }

    /// Release the lock held through `guard`.
    pub fn unlock(&mut self, n: &mut InterruptNesting, guard: CoreInterruptLockGuard<CORE>)
        requires
            old(n).wf(),
            old(self).spec_owned() ==> old(n).spec_depth() > 0,
        ensures
            final(n).wf(),
            !final(self).spec_owned(),
            old(self).spec_owned() ==> final(n).spec_depth() == old(n).spec_depth() - 1,
            !old(self).spec_owned() ==> *final(n) == *old(n),
    {
        self.inner.release_scoped_lock(n);
    }

    /// Run `f` with interrupts masked, passing it the key; must run on core
    /// `CORE`, which `requires` states.
    pub fn with<R, F: FnOnce(CoreInterruptLockKey<CORE>) -> R>(n: &mut InterruptNesting, current: CoreId, f: F) -> (r: R)
        requires
            current == CORE,
            old(n).wf(),
            old(n).spec_depth() < usize::MAX,
            f.requires((CoreInterruptLockKey::<CORE>::spec_key(),)),
        ensures
            final(n).wf(),
            *final(n) == *old(n),
            f.ensures((CoreInterruptLockKey::<CORE>::spec_key(),), r),
    {
        let key = CoreInterruptLockKey::<CORE>::new();
        Self::with_core(n, &key, f)
    }

    /// Like [`with`](Self::with); always succeeds.
    pub fn try_with<R, F: FnOnce(CoreInterruptLockKey<CORE>) -> R>(n: &mut InterruptNesting, current: CoreId, f: F) -> (r: Result<R, TryLockError>)
        requires
            current == CORE,
            old(n).wf(),
            old(n).spec_depth() < usize::MAX,
            f.requires((CoreInterruptLockKey::<CORE>::spec_key(),)),
        ensures
            final(n).wf(),
            *final(n) == *old(n),
            r matches Ok(v) && f.ensures((CoreInterruptLockKey::<CORE>::spec_key(),), v),
    {
        Ok(Self::with(n, current, f))
    }

    /// Run `f` with interrupts masked, given proof of running on core `CORE`.
    pub fn with_core<R, F: FnOnce(CoreInterruptLockKey<CORE>) -> R>(n: &mut InterruptNesting, core: &CoreInterruptLockKey<CORE>, f: F) -> (r: R)
        requires
            old(n).wf(),
            old(n).spec_depth() < usize::MAX,
            f.requires((CoreInterruptLockKey::<CORE>::spec_key(),)),
        ensures
            final(n).wf(),
            *final(n) == *old(n),
            f.ensures((CoreInterruptLockKey::<CORE>::spec_key(),), r),
    {
        let ghost before = *n;
        let saved = acquire_interrupt_lock_inner(n);
        let key = CoreInterruptLockKey::<CORE>::new();
        let result = f(key);
        release_interrupt_lock_inner(n, saved);
        assert(n.depth == before.depth);
        assert(n.interrupts_enabled == before.interrupts_enabled);
        result
    }

    /// Like [`with_core`](Self::with_core); always succeeds.
    pub fn try_with_core<R, F: FnOnce(CoreInterruptLockKey<CORE>) -> R>(n: &mut InterruptNesting, core: &CoreInterruptLockKey<CORE>, f: F) -> (r: Result<R, TryLockError>)
        requires
            old(n).wf(),
            old(n).spec_depth() < usize::MAX,
            f.requires((CoreInterruptLockKey::<CORE>::spec_key(),)),
        ensures
            final(n).wf(),
            *final(n) == *old(n),
            r matches Ok(v) && f.ensures((CoreInterruptLockKey::<CORE>::spec_key(),), v),
    {
        Ok(Self::with_core(n, core, f))
    }
}

} // verus!
