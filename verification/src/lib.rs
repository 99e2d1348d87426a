//! Byte hashing and Shannon-entropy support.
//!
//! The crate exposes hex-encoded MD5, SHA-1, SHA-256 and SHA-512 digests of
//! strings and byte buffers, and the verified frequency model that underlies
//! an empirical Shannon-entropy computation over a byte buffer.

pub mod entropy;
pub mod hashes;
