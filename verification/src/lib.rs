//! Exposes a proof-of-stake chain's governance, staking and block data in the
//! response shapes that explorers built for another chain's REST API expect.
//!
//! The crate holds the rules only: which proposal ids are looked up, how the
//! lookups of one request are joined, how a proposal's lifecycle is named in
//! the other vocabulary, and how the payloads are put together. Talking to the
//! chain and to HTTP clients is left to the program that embeds it.

pub mod blocks;
pub mod encoding;
pub mod endpoints;
pub mod error;
pub mod governance;
pub mod model;
pub mod staking;
pub mod text;
