//! The custody contract: per-org prepaid XLM balances, and the extension
//! costs that the keeper charges against them.
pub mod contract;
pub mod errors;
pub mod laws;
pub mod rules;
pub mod types;

pub use contract::{ExtenderContract, ExtenderState};
pub use errors::Error;
