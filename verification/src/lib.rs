//! A small proof-of-work block-mining core.
//!
//! The library hashes candidate blocks with SHA-256, searches for a nonce
//! whose digest falls below a numeric target, chains sealed blocks into a
//! linear sequence, and periodically rescales the target so that mining a
//! fixed-length epoch of blocks takes a configured wall-clock timespan.
//! All I/O (reading the word list, the clock, printing progress) stays with
//! the caller; the library works on plain values.

pub mod u256;
pub mod digest;
pub mod block;
pub mod chain;
pub mod pow;
pub mod difficulty;
pub mod miner;
pub mod digits;
