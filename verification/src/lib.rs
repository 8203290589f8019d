//! SCARS: the verified core of a fixed-priority, preemptive real-time kernel.
//!
//! The library holds the kernel's decision logic as plain, verified values:
//! priorities and their encoding, time arithmetic, the FIFO ring buffer and the
//! channels built on it, priority-ordered wait queues and the primitives on
//! them, the per-core lock state machines (interrupt, preempt, ceiling, spin
//! and inheritance locks), the thread and interrupt-handler priority
//! bookkeeping, the typed local storage lists, and the poll steps and task
//! queues of the async executor.
#![allow(unused_imports)]

pub mod priority;
pub mod priority_order;
pub mod atomic_priority;
pub mod time;
pub mod fifo;
pub mod notify;
pub mod protected;
pub mod channel;
pub mod rendezvous;
pub mod condvar;
pub mod async_sync;
pub mod semaphore;
pub mod once;
pub mod thread;
pub mod interrupt;
pub mod monitor;
pub mod lock;
pub mod local;
pub mod task;

pub use priority::{AnyPriority, InterruptPriority, Priority, PriorityOpt, ThreadPriority};
