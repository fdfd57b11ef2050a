//! The verified core of an intent relay: makers sign EIP-712 intents ("sell X for
//! at least Y before T"), the relay checks and stores them, and whitelisted relayers
//! propose to execute them.
//!
//! - `signature`: EIP-712 hashing of intents and recovery of their signer.
//! - `api`: the decisions of the relay's endpoints.
//! - `models`: the relay's data and its database columns.
//! - `db`: the relayer whitelist.
//! - `text`, `encoding`: characters, digits and big-endian words.
//! - `eth`, `hexcodec`: the calls into `ethers_core` and `hex`.
pub mod text;
pub mod encoding;
pub mod hexcodec;
pub mod eth;
pub mod models;
pub mod signature;
pub mod api;
pub mod db;
