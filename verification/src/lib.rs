//! Verified core of a single-object downloader for a B2-style object store.
//!
//! The library holds the logic that decides and computes: resolving the
//! integrity checksum from the two header slots the service may use,
//! building the request path, and the streaming transfer state machine that
//! hashes every chunk, tracks progress against the declared total size, and
//! passes judgement on the finished download. Network and file I/O live
//! outside the library and hand it plain values.

pub mod auth;
pub mod checksum;
pub mod hashing;
pub mod hex;
pub mod request;
pub mod transfer;
