//! Per-element link resource load coordinator.
//!
//! A single markup element that references an external resource (a
//! stylesheet or a site icon) must decide when a load is (re)started,
//! which asynchronous completion is authoritative, and how a multi-part
//! load outcome is aggregated and reported exactly once to the owning
//! document. This crate holds that state machine; fetching, CSS parsing
//! and the document's stylesheet registry are external collaborators
//! that receive the requests this library emits as plain values.

pub mod generation;
pub mod laws;
pub mod link;
pub mod resolve;
pub mod tokens;
