//! A multi-party agreement lifecycle engine.
//!
//! Parties register a document fingerprint, sign it in sequence, pay a
//! platform fee, and may cancel or escalate to a mediator.  The engine is a
//! pure state machine: each operation validates its preconditions, updates an
//! in-memory record, and returns the currency transfers and events that the
//! surrounding host must apply atomically together with the record update.

pub mod engine;
pub mod fees;
pub mod laws;
pub mod record;
pub mod types;
