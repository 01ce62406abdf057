//! The storage side of the daemon: one S3-compatible bucket, what is asked of
//! it and what its replies amount to.
//!
//! The library decides; the calls over the network, and the environment, are
//! for its callers. A call on a bucket comes in two halves: what to ask of which
//! client, and what the store's reply amounts to.

pub mod bucket;
pub mod failure;
pub mod location;
pub mod metadata;
pub mod settings;
pub mod storage_backend;
pub mod text;
