//! An event dispatch engine: events are delivered from a source endpoint to a
//! destination endpoint, one at a time or in batches, under an optional shared
//! deadline, and every event gets exactly one outcome in input order.
pub mod event;
pub mod outcome;
pub mod registry;
pub mod engine;
pub mod memory;
