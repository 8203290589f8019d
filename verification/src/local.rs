//! Per-context local storage: a list of values, each filed under its type
//! key, with at most one value per key.
pub mod cell;
pub mod list;
pub mod publish;
pub mod storage;
