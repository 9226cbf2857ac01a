//! Verified contract logic of the Archguard watch-list registry and of the
//! extension-cost custody contract.
pub mod account;
pub mod extender;
pub mod registry;
