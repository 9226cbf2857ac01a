//! Errors returned by the watch-list registry.
use vstd::prelude::*;

verus! {

/// Errors returned by the watch-list registry.
#[derive(Clone, Copy, Debug, PartialEq, Eq, Structural)]
pub enum Error {
    /// The org has not been registered yet.
    OrgNotFound,
    /// No watched entry exists with the given id.
    EntryNotFound,
    /// The org does not own the watched entry it is trying to modify.
    NotEntryOwner,
    /// The org has been deactivated and cannot make changes.
    OrgInactive,
    /// `extend_threshold_ledgers` is not strictly below `extend_to_ledgers`.
    InvalidThreshold,
}

impl Error {
    /// The numeric code under which the error is published on-chain.
    pub fn code(&self) -> (r: u32)
        ensures
            r == match *self {
                Error::OrgNotFound => 1u32,
                Error::EntryNotFound => 2u32,
                Error::NotEntryOwner => 3u32,
                Error::OrgInactive => 4u32,
                Error::InvalidThreshold => 5u32,
            },
    {
        match self {
            Error::OrgNotFound => 1,
            Error::EntryNotFound => 2,
            Error::NotEntryOwner => 3,
            Error::OrgInactive => 4,
            Error::InvalidThreshold => 5,
        }
    }
}

} // verus!
