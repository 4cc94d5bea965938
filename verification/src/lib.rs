//! Bounded-concurrency downloads with aggregated progress, as verified state
//! machines: the caller performs the requests and the writes, these types
//! decide what happens next.

pub mod download;
pub mod error;
pub mod failure;
pub mod location;
pub mod orchestrator;
pub mod progress;
pub mod size;
pub mod status;
pub mod text;
