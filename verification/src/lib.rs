//! Orchestration core of a transaction simulator.
//!
//! The crate decides how calls and bundles of calls are run against a forked,
//! simulated chain: which endpoint a chain identifier resolves to, how account
//! overrides are handed to the execution engine, in which order the engine is
//! driven while a bundle is processed, and which sessions are alive. The engine
//! itself, the network and the wire format live outside of it.

pub mod bundle;
pub mod config;
pub mod errors;
pub mod evm;
pub mod numeric;
pub mod sessions;
pub mod simulation;
