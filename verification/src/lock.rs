//! Per-core lock state machines.
//!
//! - The interrupt lock masks interrupts while any holder nests in it.
//! - The preempt lock prevents thread switching; its per-core owner is the
//!   outermost holder.
//! - The ceiling lock raises the holder's priority to the lock's ceiling so
//!   that threads and interrupts below the ceiling cannot run.
//!
//! Each lock hands out a key token while it is held.
pub mod ceiling_lock;
pub mod inheritance_lock;
pub mod interrupt_lock;
pub mod no_lock;
pub mod preempt_lock;
pub mod spinlock;

use vstd::prelude::*;

verus! {

#[derive(PartialEq, Eq, Structural, Copy, Clone, Debug)]
pub enum TryLockError {
    WouldBlock,
}

pub type LockResult<G> = Result<G, ()>;

pub type TryLockResult<G> = Result<G, TryLockError>;

/// The execution context that takes a lock: a thread or an interrupt handler,
/// by identifier.
#[derive(PartialEq, Eq, Structural, Copy, Clone, Debug)]
pub enum ContextId {
    Thread(u32),
    Interrupt(u32),
}

} // verus!
