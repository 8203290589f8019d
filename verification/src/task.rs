//! Cooperative tasks: the decisions that the futures of the executor make on
//! each poll, written as functions from the polled outcome to the next one.
pub mod combinators;
pub mod executor;
pub mod sleep;
pub mod task;
pub mod wait_for_events;
pub mod yield_now;
