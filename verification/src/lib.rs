//! Core of a fee-market transaction relay: an in-memory registry of in-flight
//! transactions, a fee-escalation policy obeying the minimum replace-by-fee
//! bump, and the per-block decision logic that keeps each tracked transaction
//! progressing toward inclusion.
//!
//! All network activity (fee estimation, canonicalization, broadcasting,
//! block streaming) happens outside this crate; the monitor here is handed
//! plain values (fee estimates, mined-transaction hashes, send outcomes) and
//! makes every decision about them.

pub mod fees;
pub mod laws;
pub mod messages;
pub mod monitor;
pub mod registry;
pub mod types;
