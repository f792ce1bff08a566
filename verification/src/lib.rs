//! Two building blocks for keeping secrets in memory: a guard that stores a
//! 32-byte secret split over two shards, so that no single region ever holds
//! the plaintext, and a word-sized lock that carries a version counter.

pub mod error;
pub mod hash;
pub mod noncontiguous_memory;
pub mod shard;
pub mod utils;
pub mod version;
