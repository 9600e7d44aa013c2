//! Periodic ingestion of the VATSIM network state into a key-value store.
//!
//! The library holds the logic of one poll cycle: choosing endpoints from the
//! status document, turning a parsed data document into an enriched snapshot,
//! splitting pilot records into bulk-write chunks and reading the store's
//! replies, and the scheduler that sequences these steps. Network, store and
//! clock access live with the caller, which feeds results back in as values.

pub mod batching;
pub mod cycle;
pub mod endpoints;
pub mod errors;
pub mod model;
pub mod vatsim;
