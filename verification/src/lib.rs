//! Verified core of an authenticated media-acquisition pipeline.
//!
//! The library covers the device-code authorization handshake, resolution of
//! a catalog identifier into track descriptors, decoding of the per-track
//! stream manifest, the bookkeeping of a bounded-concurrency download batch,
//! and the planning of post-download tag embedding.  Network and file I/O are
//! left to the surrounding application; every decision the pipeline takes is
//! made here, under contract.

pub mod auth;
pub mod catalog;
pub mod config;
pub mod engine;
pub mod json;
pub mod manifest;
pub mod strutil;
pub mod tagger;
