//! A job execution engine: admission control by rate or by concurrency,
//! bounded retry with backoff, dispatch bookkeeping and throughput reporting.
//!
//! Waiting and the work itself belong to the caller. The engine decides:
//! every component is a value with a transition function, and the caller
//! performs the action that a transition hands back.

pub mod config;
pub mod outcome;
pub mod retry;
pub mod admission;
pub mod report;
pub mod runner;
pub mod args;
pub mod payload;
