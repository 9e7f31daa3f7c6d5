//! Precompression pipeline for a static-asset server.
//!
//! The library covers the logic of the pipeline: naming compressed sibling
//! artifacts, dispatching over the supported compression kinds, deciding
//! when an artifact is stale, publishing a regenerated artifact so that a
//! reader never sees a half-written file under its final name, and the
//! first-in-first-out queue that serializes all generation work through a
//! single worker.

pub mod codec;
pub mod compression;
pub mod publish;
pub mod worker;
