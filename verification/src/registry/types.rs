//! Data held and published by the watch-list registry.
use vstd::prelude::*;
use crate::account::{copy_bytes, AccountId};

verus! {

/// The durability category of a watched entry's underlying storage.
///
/// Only `Instance` and `Persistent` storage is in scope for the keeper;
/// `Temporary` storage cannot be meaningfully TTL-watched.
#[derive(Clone, Copy, Debug, PartialEq, Eq, Structural)]
pub enum Durability {
    Instance,
    Persistent,
    Temporary,
}

/// Configuration of a registered org.
pub struct OrgConfig {
    /// Address authorized to manage this org's watched entries.
    pub admin: AccountId,
    /// SHA-256 hash of the org's notification webhook URL; only the hash
    /// is stored.
    pub notify_webhook: [u8; 32],
    /// Whether the org is currently active. Deactivated orgs cannot add,
    /// change or remove watched entries.
    pub active: bool,
}

/// What an [`OrgConfig`] holds, as plain values.
pub struct OrgConfigView {
    pub admin: Seq<u8>,
    pub notify_webhook: Seq<u8>,
    pub active: bool,
}

impl View for OrgConfig {
    type V = OrgConfigView;

    open spec fn view(&self) -> OrgConfigView {
        OrgConfigView {
            admin: self.admin@,
            notify_webhook: self.notify_webhook@,
            active: self.active,
        }
    }
}

impl OrgConfig {
    /// A copy of this configuration.
    pub fn duplicate(&self) -> (r: OrgConfig)
        ensures
            r@ == self@,
    {
        OrgConfig {
            admin: self.admin.duplicate(),
            notify_webhook: self.notify_webhook,
            active: self.active,
        }
    }
}

/// A single watched entry: one contract storage key that the keeper
/// watches and extends.
pub struct WatchedEntry {
    /// Globally unique entry id, assigned by the registry.
    pub id: u64,
    /// Org that owns this entry.
    pub org: AccountId,
    /// Contract whose storage this entry refers to.
    pub contract_id: AccountId,
    /// Durability category of the watched storage key.
    pub durability: Durability,
    /// The storage key being watched, as raw bytes; absent when the whole
    /// contract instance is watched.
    pub key: Option<Vec<u8>>,
    /// Re-extend when the remaining TTL (ledgers) drops below this value.
    pub extend_threshold_ledgers: u32,
    /// Extend the entry's TTL out to this value (ledgers).
    pub extend_to_ledgers: u32,
    /// Whether the keeper may extend the entry without asking.
    pub auto_extend: bool,
    /// Ledger timestamp when the entry was added.
    pub created_at: u64,
}

/// What a [`WatchedEntry`] holds, as plain values.
pub struct WatchedEntryView {
    pub id: u64,
    pub org: Seq<u8>,
    pub contract_id: Seq<u8>,
    pub durability: Durability,
    pub key: Option<Seq<u8>>,
    pub extend_threshold_ledgers: u32,
    pub extend_to_ledgers: u32,
    pub auto_extend: bool,
    pub created_at: u64,
}

/// A storage key, as plain bytes.
pub open spec fn key_view(key: Option<Vec<u8>>) -> Option<Seq<u8>> {
    match key {
        Some(k) => Some(k@),
        None => None,
    }
}

/// A copy of a storage key.
pub fn copy_key(key: &Option<Vec<u8>>) -> (r: Option<Vec<u8>>)
    ensures
        key_view(r) == key_view(*key),
{
    match key {
        Some(k) => Some(copy_bytes(k)),
        None => None,
    }
}

impl View for WatchedEntry {
    type V = WatchedEntryView;

    open spec fn view(&self) -> WatchedEntryView {
        WatchedEntryView {
            id: self.id,
            org: self.org@,
            contract_id: self.contract_id@,
            durability: self.durability,
            key: key_view(self.key),
            extend_threshold_ledgers: self.extend_threshold_ledgers,
            extend_to_ledgers: self.extend_to_ledgers,
            auto_extend: self.auto_extend,
            created_at: self.created_at,
        }
    }
}

impl WatchedEntry {
    /// A copy of this entry.
    pub fn duplicate(&self) -> (r: WatchedEntry)
        ensures
            r@ == self@,
    {
        WatchedEntry {
            id: self.id,
            org: self.org.duplicate(),
            contract_id: self.contract_id.duplicate(),
            durability: self.durability,
            key: copy_key(&self.key),
            extend_threshold_ledgers: self.extend_threshold_ledgers,
            extend_to_ledgers: self.extend_to_ledgers,
            auto_extend: self.auto_extend,
            created_at: self.created_at,
        }
    }
}

/// Published when a new org registers. Topics: `["org_registered", org]`.
pub struct OrgRegistered {
    pub org: AccountId,
    pub config: OrgConfig,
}

/// Published when a watched entry is added. Topics: `["entry_added", id]`.
pub struct EntryAdded {
    pub entry_id: u64,
    pub entry: WatchedEntry,
}

/// Published when a watched entry is removed. Topics: `["entry_removed", id]`.
#[derive(Clone, Copy, Debug, PartialEq, Eq, Structural)]
pub struct EntryRemoved {
    pub entry_id: u64,
}

/// Published when a watched entry's extension policy changes.
/// Topics: `["entry_policy_updated", id]`.
pub struct EntryPolicyUpdated {
    pub entry_id: u64,
    pub entry: WatchedEntry,
}

/// Published when an org is deactivated. Topics: `["org_deactivated", org]`.
pub struct OrgDeactivated {
    pub org: AccountId,
}

} // verus!
