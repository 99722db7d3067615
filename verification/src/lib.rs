//! Orchestration core for a two-asset constant-product pool.
//!
//! The pool mediates between two external asset ledgers. It holds no
//! balances of its own: on every inbound deposit it queries both ledgers,
//! prices the swap with a constant-product rule, and decides the outbound
//! transfer. All remote work (balance queries, metadata fetches, transfers)
//! is asynchronous and runs outside this crate; the functions here are the
//! decision steps of that two-phase flow. Each one maps the pool state and
//! the delivered call results to the next state and the calls to issue.

pub mod batch;
pub mod errors;
pub mod pool;
pub mod pricing;
