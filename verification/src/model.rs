//! The response shapes, one module per area of the REST schema.

pub mod bank;
pub mod distribution;
pub mod gov;
pub mod mint;
pub mod shared;
pub mod slashing;
pub mod staking;
pub mod tendermint;
