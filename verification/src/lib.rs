//! Account layouts, state transitions and cross-program instruction data of
//! the humanship membership program.
pub mod account;
pub mod cnft;
pub mod codec;
pub mod config;
pub mod cpi;
pub mod errors;
pub mod group;
pub mod hashing;
pub mod membership;
pub mod seeds;
pub mod sizing;
