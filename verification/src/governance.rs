//! Governance proposals: which ids exist, how their lookups are joined, and how
//! a proposal is presented.

pub mod assemble;
pub mod enumerate;
pub mod join_laws;
pub mod list_laws;
pub mod native;
pub mod orchestrator;
pub mod status;
