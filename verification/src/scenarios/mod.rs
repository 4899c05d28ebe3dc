//! The attack catalogue, the internal knowledge base and the scenario
//! executor.

pub mod catalogue;
pub mod executor;
pub mod knowledge;
pub mod types;
