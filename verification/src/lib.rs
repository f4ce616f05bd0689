//! Verified core of a CPU miner for the Fortuna stratum protocol: the proof-of-work
//! scoring of block hashes, the nonce counter, the hex and SHA-256 plumbing of a
//! mining worker, and the decisions taken on stratum messages.
pub mod difficulty;
pub mod hash;
pub mod hexcode;
pub mod job;
pub mod json;
pub mod nonce;
pub mod stratum;
pub mod worker;

pub use difficulty::get_difficulty;
pub use nonce::increment_u8_array;
