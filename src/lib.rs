//! Turns a callback-based native export into one awaitable outcome.
//!
//! `completion` classifies what the native completion callback reports,
//! `bridge` hands that outcome over exactly once through a single-delivery
//! channel, and `flow` decides each step of an export, from the capability
//! gate to the single report, leaving the native call, the wait and the file
//! write to its host.
pub mod bridge;
pub mod completion;
pub mod error;
pub mod flow;
