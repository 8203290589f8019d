//! The preempt lock: prevents thread switching on the current core while
//! leaving interrupts enabled. Each core records its outermost holder;
//! nested acquisitions by the same holder leave it in place.
use crate::lock::{ContextId, TryLockError};
use crate::thread::CoreId;
use vstd::prelude::*;

verus! {

/// Witness that the preempt lock is held on core `core`.
#[derive(Clone, Copy, Debug)]
pub struct PreemptLockKey {
    pub core: CoreId,
}

/// Witness that the preempt lock is held on core `CORE`.
#[derive(Clone, Copy, Debug)]
pub struct CorePreemptLockKey<const CORE: usize> {
    seal: (),
}

impl PreemptLockKey {
    pub fn new(core: CoreId) -> (r: PreemptLockKey)
        ensures
            r.core == core,
    {
        PreemptLockKey { core }
    }

    /// The key for the core it was issued on. Lifting to another core is a
    /// fault, which `requires` leaves out.
    pub fn lift<const CORE: usize>(self) -> (r: CorePreemptLockKey<CORE>)
        requires
            self.core == CORE,
        ensures
            r == CorePreemptLockKey::<CORE>::spec_key(),
    {
        CorePreemptLockKey { seal: () }
    }
}

impl<const CORE: usize> CorePreemptLockKey<CORE> {
    /// The key value (keys carry no data).
    pub closed spec fn spec_key() -> CorePreemptLockKey<CORE> {
        CorePreemptLockKey { seal: () }
    }

    pub fn new() -> (r: CorePreemptLockKey<CORE>)
        ensures
            r == Self::spec_key(),
    {
        CorePreemptLockKey { seal: () }
    }

    /// The key without its core in the type.
    pub fn erase(self) -> (r: PreemptLockKey)
        ensures
            r.core == CORE,
    {
        PreemptLockKey { core: CORE }
    }
}

/// One core's preempt-lock holder, if any.
pub struct PreemptState {
    owner: Option<ContextId>,
}

impl PreemptState {
    pub closed spec fn spec_owner(&self) -> Option<ContextId> {
        self.owner
    }

    pub fn new() -> (r: PreemptState)
        ensures
            r.spec_owner() is None,
    {
        PreemptState { owner: None }
    }

    pub fn owner(&self) -> (r: Option<ContextId>)
        ensures
            r == self.spec_owner(),
    {
        self.owner
    }
}

/// What a release restores: the holder found when the lock was taken, and
/// the core it was taken on.
#[derive(Clone, Copy, Debug)]
pub enum PreemptLockRestoreState {
    Interrupt { prev: Option<ContextId>, core: CoreId },
    Thread { prev: Option<ContextId>, core: CoreId },
}

/// The holder found when the lock was taken.
pub open spec fn restore_prev(s: PreemptLockRestoreState) -> Option<ContextId> {
    match s {
        PreemptLockRestoreState::Interrupt { prev, .. } => prev,
        PreemptLockRestoreState::Thread { prev, .. } => prev,
    }
}

/// The core the lock was taken on.
pub open spec fn restore_core(s: PreemptLockRestoreState) -> CoreId {
    match s {
        PreemptLockRestoreState::Interrupt { core, .. } => core,
        PreemptLockRestoreState::Thread { core, .. } => core,
    }
}

impl PreemptLockRestoreState {
    pub fn is_interrupt(&self) -> (r: bool)
        ensures
            r == (*self is Interrupt),
    {
        match self {
            PreemptLockRestoreState::Interrupt { .. } => true,
            PreemptLockRestoreState::Thread { .. } => false,
        }
    }

    /// Whether the lock was free when taken, i.e. this is the outermost hold.
    pub fn is_null(&self) -> (r: bool)
        ensures
            r == (restore_prev(*self) is None),
    {
        match self {
            PreemptLockRestoreState::Interrupt { prev, .. } => prev.is_none(),
            PreemptLockRestoreState::Thread { prev, .. } => prev.is_none(),
        }
    }

    pub fn core_id(&self) -> (r: CoreId)
        ensures
            r == restore_core(*self),
    {
        match self {
            PreemptLockRestoreState::Interrupt { core, .. } => *core,
            PreemptLockRestoreState::Thread { core, .. } => *core,
        }
    }
}

/// Whether thread switching is allowed on the core: no one holds the lock.
pub fn is_preempt_allowed(state: &PreemptState) -> (r: bool)
    ensures
        r == (state.spec_owner() is None),
{
    state.owner.is_none()
}

/// Take the lock for thread `ctx` on core `core`; the thread becomes the
/// holder. Taking it from an interrupt handler is a fault, which `requires`
/// leaves out.
pub fn acquire_nesting_lock_inner(state: &mut PreemptState, ctx: ContextId, core: CoreId) -> (r: PreemptLockRestoreState)
    requires
        ctx is Thread,
    ensures
        final(state).spec_owner() == Some(ctx),
        r == (PreemptLockRestoreState::Thread { prev: old(state).spec_owner(), core }),
{
    let prev = state.owner;
    state.owner = Some(ctx);
    PreemptLockRestoreState::Thread { prev, core }
}

/// Try to take the lock for `ctx` on core `core`. A thread always takes it.
/// An interrupt handler takes it only when it is free or already its own;
/// otherwise `Err(WouldBlock)` and nothing changes.
pub fn try_acquire_nesting_lock_inner(state: &mut PreemptState, ctx: ContextId, core: CoreId) -> (r: Result<PreemptLockRestoreState, TryLockError>)
    ensures
        ctx is Thread ==> r == Ok::<PreemptLockRestoreState, TryLockError>(
            PreemptLockRestoreState::Thread { prev: old(state).spec_owner(), core },
        ) && final(state).spec_owner() == Some(ctx),
        ctx is Interrupt && old(state).spec_owner() is None ==> r == Ok::<PreemptLockRestoreState, TryLockError>(
            PreemptLockRestoreState::Interrupt { prev: None, core },
        ) && final(state).spec_owner() == Some(ctx),
        ctx is Interrupt && old(state).spec_owner() == Some(ctx) ==> r == Ok::<PreemptLockRestoreState, TryLockError>(
            PreemptLockRestoreState::Interrupt { prev: Some(ctx), core },
        ) && final(state).spec_owner() == Some(ctx),
        ctx is Interrupt && old(state).spec_owner() is Some && old(state).spec_owner() != Some(ctx)
            ==> r == Err::<PreemptLockRestoreState, TryLockError>(TryLockError::WouldBlock)
            && final(state).spec_owner() == old(state).spec_owner(),
{
    match ctx {
        ContextId::Interrupt(_) => {
            match state.owner {
                None => {
                    state.owner = Some(ctx);
                    Ok(PreemptLockRestoreState::Interrupt { prev: None, core })
                },
                Some(prev) => {
                    if prev == ctx {
                        Ok(PreemptLockRestoreState::Interrupt { prev: Some(prev), core })
                    } else {
                        Err(TryLockError::WouldBlock)
                    }
                },
            }
        },
        ContextId::Thread(_) => {
            let prev = state.owner;
            state.owner = Some(ctx);
            Ok(PreemptLockRestoreState::Thread { prev, core })
        },
    }
}

/// Release a hold: the outermost hold frees the lock; an inner hold leaves
/// it with its holder.
pub fn release_nesting_lock_inner(state: &mut PreemptState, restore_state: PreemptLockRestoreState)
    ensures
        restore_prev(restore_state) is None ==> final(state).spec_owner() is None,
        restore_prev(restore_state) is Some ==> final(state).spec_owner() == old(state).spec_owner(),
{
    if restore_state.is_null() {
        state.owner = None;
    }
}

/// Whether releasing the outermost hold must pend a service call: a
/// reschedule or deferred kernel work became due while the lock was held.
pub fn needs_service_call(restore_state: &PreemptLockRestoreState, reschedule_pending: bool, deferred_work_pending: bool) -> (r: bool)
    ensures
        r == (restore_prev(*restore_state) is None && (reschedule_pending || deferred_work_pending)),
{
    restore_state.is_null() && (reschedule_pending || deferred_work_pending)
}

/// A preempt lock bound to one core.
pub struct PreemptLock {
    pub core: CoreId,
}

/// Held while a preempt lock is taken; give it back to release.
pub struct PreemptLockGuard {
    restore_state: Option<PreemptLockRestoreState>,
}

impl PreemptLockGuard {
    /// The state the release restores.
    pub closed spec fn spec_restore_state(&self) -> Option<PreemptLockRestoreState> {
        self.restore_state
    }
}

impl PreemptLock {
    pub fn new(core: CoreId) -> (r: PreemptLock)
        ensures
            r.core == core,
    {
        PreemptLock { core }
    }

    /// Take the lock for thread `ctx`, which must run on the lock's core.
    pub fn lock(&self, state: &mut PreemptState, ctx: ContextId, current: CoreId) -> (r: PreemptLockGuard)
        requires
            current == self.core,
            ctx is Thread,
        ensures
            final(state).spec_owner() == Some(ctx),
            r.spec_restore_state() == Some(PreemptLockRestoreState::Thread { prev: old(state).spec_owner(), core: current }),
    {
        self.lock_unchecked(state, ctx, current)
    }

    /// Try to take the lock for `ctx`, which must run on the lock's core; see
    /// [`try_acquire_nesting_lock_inner`].
    pub fn try_lock(&self, state: &mut PreemptState, ctx: ContextId, current: CoreId) -> (r: Result<PreemptLockGuard, TryLockError>)
        requires
            current == self.core,
        ensures
            r is Ok <==> (ctx is Thread || old(state).spec_owner() is None || old(state).spec_owner() == Some(ctx)),
            r is Ok ==> final(state).spec_owner() == Some(ctx),
            r is Err ==> final(state).spec_owner() == old(state).spec_owner(),
    {
        self.try_lock_unchecked(state, ctx, current)
    }

    /// Take the lock without checking the core.
    pub fn lock_unchecked(&self, state: &mut PreemptState, ctx: ContextId, current: CoreId) -> (r: PreemptLockGuard)
        requires
            ctx is Thread,
        ensures
            final(state).spec_owner() == Some(ctx),
            r.spec_restore_state() == Some(PreemptLockRestoreState::Thread { prev: old(state).spec_owner(), core: current }),
    {
        let restore_state = acquire_nesting_lock_inner(state, ctx, current);
        PreemptLockGuard { restore_state: Some(restore_state) }
    }

    /// Try to take the lock without checking the core.
    pub fn try_lock_unchecked(&self, state: &mut PreemptState, ctx: ContextId, current: CoreId) -> (r: Result<PreemptLockGuard, TryLockError>)
        ensures
            r is Ok <==> (ctx is Thread || old(state).spec_owner() is None || old(state).spec_owner() == Some(ctx)),
            r is Ok ==> final(state).spec_owner() == Some(ctx),
            r is Err ==> final(state).spec_owner() == old(state).spec_owner(),
    {
        match try_acquire_nesting_lock_inner(state, ctx, current) {
            Ok(restore_state) => Ok(PreemptLockGuard { restore_state: Some(restore_state) }),
            Err(err) => Err(err),
        }
    }

    /// Release the hold that `guard` stands for.
    pub fn unlock(state: &mut PreemptState, guard: PreemptLockGuard)
        ensures
            guard.spec_restore_state() matches Some(rs) && restore_prev(rs) is None ==> final(state).spec_owner() is None,
            guard.spec_restore_state() matches Some(rs) && restore_prev(rs) is Some ==> final(state).spec_owner() == old(state).spec_owner(),
            guard.spec_restore_state() is None ==> final(state).spec_owner() == old(state).spec_owner(),
    {
        match guard.restore_state {
            Some(rs) => release_nesting_lock_inner(state, rs),
            None => {},
        }
    }

    /// Run `f` holding the lock for thread `ctx` on core `current`, passing
    /// it the key. Afterwards the holder is as before if the lock was free or
    /// already the thread's.
    pub fn with<R, F: FnOnce(PreemptLockKey) -> R>(state: &mut PreemptState, ctx: ContextId, current: CoreId, f: F) -> (r: R)
        requires
            ctx is Thread,
            f.requires((PreemptLockKey { core: current },)),
        ensures
            f.ensures((PreemptLockKey { core: current },), r),
            old(state).spec_owner() is None ==> final(state).spec_owner() is None,
            old(state).spec_owner() is Some ==> final(state).spec_owner() == Some(ctx),
    {
        let restore_state = acquire_nesting_lock_inner(state, ctx, current);
        let key = PreemptLockKey::new(current);
        let result = f(key);
        release_nesting_lock_inner(state, restore_state);
        result
    }

    /// Like [`with`](Self::with), for any context; fails with
    /// `Err(WouldBlock)` when an interrupt handler finds the lock held by
    /// another context.
    pub fn try_with<R, F: FnOnce(PreemptLockKey) -> R>(state: &mut PreemptState, ctx: ContextId, current: CoreId, f: F) -> (r: Result<R, TryLockError>)
        requires
            f.requires((PreemptLockKey { core: current },)),
        ensures
            r is Ok <==> (ctx is Thread || old(state).spec_owner() is None || old(state).spec_owner() == Some(ctx)),
            r matches Ok(v) ==> f.ensures((PreemptLockKey { core: current },), v),
            r is Err ==> final(state).spec_owner() == old(state).spec_owner(),
            r is Ok && old(state).spec_owner() is None ==> final(state).spec_owner() is None,
    {
        match try_acquire_nesting_lock_inner(state, ctx, current) {
            Ok(restore_state) => {
                let key = PreemptLockKey::new(current);
                let result = f(key);
                release_nesting_lock_inner(state, restore_state);
                Ok(result)
            },
            Err(err) => Err(err),
        }
    }
}

/// A preempt lock whose core is part of its type.
pub struct CorePreemptLock<const CORE: usize> {
    inner: PreemptLock,
}

/// Held while a `CorePreemptLock` is taken.
pub struct CorePreemptLockGuard<const CORE: usize> {
    inner: PreemptLockGuard,
}

impl<const CORE: usize> CorePreemptLockGuard<CORE> {
    /// The state the release restores.
    pub closed spec fn spec_restore_state(&self) -> Option<PreemptLockRestoreState> {
        self.inner.spec_restore_state()
    }
}

impl<const CORE: usize> CorePreemptLock<CORE> {
    /// The core the lock belongs to.
    pub closed spec fn spec_core(&self) -> CoreId {
        self.inner.core
    }

    pub fn new() -> (r: CorePreemptLock<CORE>)
        ensures
            r.spec_core() == CORE,
    {
        CorePreemptLock { inner: PreemptLock::new(CORE) }
    }

    /// Take the lock for thread `ctx`; must run on core `CORE`.
    pub fn lock(&self, state: &mut PreemptState, ctx: ContextId, current: CoreId) -> (r: CorePreemptLockGuard<CORE>)
        requires
            current == CORE,
            ctx is Thread,
        ensures
            final(state).spec_owner() == Some(ctx),
            r.spec_restore_state() == Some(PreemptLockRestoreState::Thread { prev: old(state).spec_owner(), core: current }),
    {
        let inner = self.inner.lock_unchecked(state, ctx, current);
        CorePreemptLockGuard { inner }
    }


    /// Try to take the lock for `ctx`; must run on core `CORE`.
    pub fn try_lock(&self, state: &mut PreemptState, ctx: ContextId, current: CoreId) -> (r: Result<CorePreemptLockGuard<CORE>, TryLockError>)
        requires
            current == CORE,
        ensures
            r is Ok <==> (ctx is Thread || old(state).spec_owner() is None || old(state).spec_owner() == Some(ctx)),
            r is Ok ==> final(state).spec_owner() == Some(ctx),
            r is Err ==> final(state).spec_owner() == old(state).spec_owner(),
    {
        match self.inner.try_lock_unchecked(state, ctx, current) {
            Ok(inner) => Ok(CorePreemptLockGuard { inner }),
            Err(e) => Err(e),
        }
    }

    /// Release the hold that `guard` stands for.
    pub fn unlock(state: &mut PreemptState, guard: CorePreemptLockGuard<CORE>)
        ensures
            guard.spec_restore_state() matches Some(rs) && restore_prev(rs) is None ==> final(state).spec_owner() is None,
    {
        PreemptLock::unlock(state, guard.inner)
    }

    /// Run `f` holding the lock for thread `ctx`; must run on core `CORE`.
    pub fn with<R, F: FnOnce(CorePreemptLockKey<CORE>) -> R>(state: &mut PreemptState, ctx: ContextId, current: CoreId, f: F) -> (r: R)
        requires
            current == CORE,
            ctx is Thread,
            f.requires((CorePreemptLockKey::<CORE>::spec_key(),)),
        ensures
            f.ensures((CorePreemptLockKey::<CORE>::spec_key(),), r),
            old(state).spec_owner() is None ==> final(state).spec_owner() is None,
            old(state).spec_owner() is Some ==> final(state).spec_owner() == Some(ctx),
    {
        let core = CorePreemptLockKey::<CORE>::new();
        Self::with_core(state, ctx, &core, f)
    }

    /// Like [`with`](Self::with), for any context; see
    /// [`PreemptLock::try_with`].
    pub fn try_with<R, F: FnOnce(CorePreemptLockKey<CORE>) -> R>(state: &mut PreemptState, ctx: ContextId, current: CoreId, f: F) -> (r: Result<R, TryLockError>)
        requires
            current == CORE,
            f.requires((CorePreemptLockKey::<CORE>::spec_key(),)),
        ensures
            r is Ok <==> (ctx is Thread || old(state).spec_owner() is None || old(state).spec_owner() == Some(ctx)),
            r matches Ok(v) ==> f.ensures((CorePreemptLockKey::<CORE>::spec_key(),), v),
            r is Err ==> final(state).spec_owner() == old(state).spec_owner(),
    {
        let core = CorePreemptLockKey::<CORE>::new();
        Self::try_with_core(state, ctx, &core, f)
    }

    /// Run `f` holding the lock, given proof of running on core `CORE`.
    pub fn with_core<R, F: FnOnce(CorePreemptLockKey<CORE>) -> R>(state: &mut PreemptState, ctx: ContextId, core: &CorePreemptLockKey<CORE>, f: F) -> (r: R)
        requires
            ctx is Thread,
            f.requires((CorePreemptLockKey::<CORE>::spec_key(),)),
        ensures
            f.ensures((CorePreemptLockKey::<CORE>::spec_key(),), r),
            old(state).spec_owner() is None ==> final(state).spec_owner() is None,
            old(state).spec_owner() is Some ==> final(state).spec_owner() == Some(ctx),
    {
        let restore_state = acquire_nesting_lock_inner(state, ctx, CORE);
        let key = CorePreemptLockKey::<CORE>::new();
        let result = f(key);
        release_nesting_lock_inner(state, restore_state);
        result
    }

    /// Like [`with_core`](Self::with_core), for any context.
    pub fn try_with_core<R, F: FnOnce(CorePreemptLockKey<CORE>) -> R>(state: &mut PreemptState, ctx: ContextId, core: &CorePreemptLockKey<CORE>, f: F) -> (r: Result<R, TryLockError>)
        requires
            f.requires((CorePreemptLockKey::<CORE>::spec_key(),)),
        ensures
            r is Ok <==> (ctx is Thread || old(state).spec_owner() is None || old(state).spec_owner() == Some(ctx)),
            r matches Ok(v) ==> f.ensures((CorePreemptLockKey::<CORE>::spec_key(),), v),
            r is Err ==> final(state).spec_owner() == old(state).spec_owner(),
    {
        match try_acquire_nesting_lock_inner(state, ctx, CORE) {
            Ok(restore_state) => {
                let key = CorePreemptLockKey::<CORE>::new();
                let result = f(key);
                release_nesting_lock_inner(state, restore_state);
                Ok(result)
            },
            Err(err) => Err(err),
        }
    }
}

} // verus!
