//! A minimal counter kept in a host-provided key-value store.
//!
//! The counter is a single unsigned byte persisted under one storage key.
//! Three entry points operate on it: `instantiate` writes an initial value,
//! `execute` applies a saturating increment, a saturating decrement, or a
//! direct set, and `query` reads the value back. Every handler re-reads the
//! stored value; nothing is cached across calls.

pub mod contract;
pub mod error;
pub mod msg;
pub mod storage;
