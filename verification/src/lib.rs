//! Ingestion pipeline for motorsport federation document feeds.
//!
//! The library covers the verified core of the ingester: the feed
//! extraction state machine, the dedup cache, the per-document content
//! pipeline, the cycle orchestrator with cooperative cancellation, and
//! the object-storage request signer.  Network and store I/O live
//! outside the library and drive it through plain values.

pub mod cache;
pub mod decimal;
pub mod feed;
pub mod keys;
pub mod pacing;
pub mod pipeline;
pub mod runner;
pub mod series;
pub mod signer;
pub mod store;
