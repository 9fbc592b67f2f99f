//! In-memory caching core for a small JSON republishing service: content
//! fingerprints used as strong ETags, immutable cache entries, a
//! reader/writer-locked remote cache slot, conditional-GET response policy,
//! and the decision logic of the background refresher.

pub mod digest;
pub mod entry;
pub mod config;
pub mod policy;
pub mod refresh;
pub mod slot;
