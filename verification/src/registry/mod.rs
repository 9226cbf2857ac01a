//! The watch-list registry: orgs, and the contract storage entries whose
//! TTL the keeper watches and extends for them.
pub mod contract;
pub mod errors;
pub mod laws;
pub mod rules;
pub mod state;
pub mod table;
pub mod types;

pub use contract::RegistryContract;
pub use errors::Error;
