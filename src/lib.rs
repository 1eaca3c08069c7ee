//! Two-party rendezvous keyed by a caller-supplied string.
//!
//! The first arrival for a key waits (bounded by a timeout) until a second
//! arrival for the same key signals it; any further arrival while the pairing
//! is open is rejected.

pub mod app;
pub mod laws;
pub mod point;
pub mod response;
pub mod sync_service;
pub mod table;
