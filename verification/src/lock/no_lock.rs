//! A lock that does nothing, for data that needs no mutual exclusion.
use crate::lock::TryLockError;
use vstd::prelude::*;

verus! {

pub struct NoLock {
    seal: (),
}

/// Witness of holding a `NoLock`.
#[derive(Clone, Copy, Debug)]
pub struct NoLockKey {
    seal: (),
}

/// Held while a `NoLock` is taken.
pub struct NoLockGuard {
    seal: (),
}

impl NoLockKey {
    /// The key value (keys carry no data).
    pub closed spec fn spec_key() -> NoLockKey {
        NoLockKey { seal: () }
    }
}

impl NoLock {
    pub fn new() -> (r: NoLock) {
        NoLock { seal: () }
    }

    /// Run `f` with the key.
    pub fn with<R, F: FnOnce(NoLockKey) -> R>(f: F) -> (r: R)
        requires
            f.requires((NoLockKey::spec_key(),)),
        ensures
            f.ensures((NoLockKey::spec_key(),), r),
    {
        let key = NoLock::new_key();
        f(key)
    }

    /// Like [`with`](Self::with); always succeeds.
    pub fn try_with<R, F: FnOnce(NoLockKey) -> R>(f: F) -> (r: Result<R, TryLockError>)
        requires
            f.requires((NoLockKey::spec_key(),)),
        ensures
            r matches Ok(v) && f.ensures((NoLockKey::spec_key(),), v),
    {
        Ok(Self::with(f))
    }

    pub fn new_key() -> (r: NoLockKey)
        ensures
            r == NoLockKey::spec_key(),
    {
        NoLockKey { seal: () }
    }

    pub fn lock(&self) -> (r: NoLockGuard) {
        NoLockGuard { seal: () }
    }

    /// Always succeeds.
    pub fn try_lock(&self) -> (r: Result<NoLockGuard, TryLockError>)
        ensures
            r is Ok,
    {
        Ok(NoLockGuard { seal: () })
    }
}

} // verus!
