//! A spin lock that also masks interrupts while held.
use crate::lock::TryLockError;
use vstd::prelude::*;

verus! {

pub struct SpinLock {
    locked: bool,
}

/// Held while the spin lock is taken; keeps the interrupt mask found when it
/// was taken, which the release restores.
pub struct SpinLockGuard {
    saved: bool,
}

impl SpinLockGuard {
    /// Whether interrupts were enabled when the lock was taken.
    pub closed spec fn spec_saved(&self) -> bool {
        self.saved
    }
}

impl SpinLock {
    pub closed spec fn spec_locked(&self) -> bool {
        self.locked
    }

    pub fn new() -> (r: SpinLock)
        ensures
            !r.spec_locked(),
    {
        SpinLock { locked: false }
    }

    /// Mask interrupts and take the lock. Spinning on a lock held on the same
    /// core never ends, so `requires` leaves a held lock out.
    pub fn lock(&mut self, interrupts_enabled: &mut bool) -> (r: SpinLockGuard)
        requires
            !old(self).spec_locked(),
        ensures
            final(self).spec_locked(),
            !*final(interrupts_enabled),
            r.spec_saved() == *old(interrupts_enabled),
    {
        let saved = *interrupts_enabled;
        *interrupts_enabled = false;
        self.locked = true;
        SpinLockGuard { saved }
    }

    /// Take the lock if it is free; otherwise `Err(WouldBlock)`, with the
    /// interrupt mask restored.
    pub fn try_lock(&mut self, interrupts_enabled: &mut bool) -> (r: Result<SpinLockGuard, TryLockError>)
        ensures
            old(self).spec_locked() ==> r == Err::<SpinLockGuard, TryLockError>(TryLockError::WouldBlock)
                && *final(interrupts_enabled) == *old(interrupts_enabled) && final(self).spec_locked(),
            !old(self).spec_locked() ==> (r matches Ok(g) && g.spec_saved() == *old(interrupts_enabled))
                && !*final(interrupts_enabled) && final(self).spec_locked(),
    {
        let saved = *interrupts_enabled;
        *interrupts_enabled = false;
        if self.locked {
            *interrupts_enabled = saved;
            Err(TryLockError::WouldBlock)
        } else {
            self.locked = true;
            Ok(SpinLockGuard { saved })
        }
    }

    /// Release the lock and restore the interrupt mask saved in `guard`.
    pub fn unlock(&mut self, interrupts_enabled: &mut bool, guard: SpinLockGuard)
        ensures
            !final(self).spec_locked(),
            *final(interrupts_enabled) == guard.spec_saved(),
    {
        self.locked = false;
        *interrupts_enabled = guard.saved;
    }

    /// Release the lock for a while, keeping the guard.
    pub fn unlock_guard(&mut self, interrupts_enabled: &mut bool, guard: &SpinLockGuard)
        ensures
            !final(self).spec_locked(),
            *final(interrupts_enabled) == guard.spec_saved(),
    {
        self.locked = false;
        *interrupts_enabled = guard.saved;
    }

    /// Take the lock again after [`unlock_guard`](Self::unlock_guard).
    pub fn relock(&mut self, interrupts_enabled: &mut bool, guard: &mut SpinLockGuard)
        requires
            !old(self).spec_locked(),
        ensures
            final(self).spec_locked(),
            !*final(interrupts_enabled),
            final(guard).spec_saved() == *old(interrupts_enabled),
    {
        guard.saved = *interrupts_enabled;
        *interrupts_enabled = false;
        self.locked = true;
    }
}

} // verus!
