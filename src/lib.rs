//! Single-instance supervision of a long-running worker process.
//!
//! The library holds the decisions: whether a start spawns, what a stop
//! terminates and in which order, how each output event of the worker is
//! reported, and what every operation answers its caller. Spawning, killing
//! and reading pipes are left to the host, which hands the outcomes back.

pub mod decimal;
pub mod lifecycle;
pub mod pump;
pub mod supervisor;
pub mod termination;
