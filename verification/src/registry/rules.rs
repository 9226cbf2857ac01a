//! The decisions of the watch-list registry, one per entry point, over the
//! storage cells that the entry point reads.
//!
//! Each function takes the cells as plain values (an org's config, the
//! entry-id counter, a watched entry, an org's list of entry ids) and
//! returns what is to be written back. Auth checks, the ledger clock and
//! storage are the business of whoever runs the contract on a ledger.
use vstd::prelude::*;
use crate::account::AccountId;
use crate::registry::errors::Error;
use crate::registry::types::{
    copy_key,
    key_view,
    Durability,
    OrgConfig,
    OrgConfigView,
    OrgRegistered,
    WatchedEntry,
    WatchedEntryView,
};

verus! {

/// A stored org config, as plain values.
pub open spec fn config_view(cfg: Option<&OrgConfig>) -> Option<OrgConfigView> {
    match cfg {
        Some(c) => Some(c@),
        None => None,
    }
}

/// A stored watched entry, as plain values.
pub open spec fn entry_view(entry: Option<&WatchedEntry>) -> Option<WatchedEntryView> {
    match entry {
        Some(e) => Some(e@),
        None => None,
    }
}

/// Whether entries may watch storage of this durability: `Temporary`
/// storage is excluded by design, since it cannot be meaningfully
/// TTL-watched.
pub fn watchable(durability: Durability) -> (r: bool)
    ensures
        r == (durability != Durability::Temporary),
{
    match durability {
        Durability::Temporary => false,
        _ => true,
    }
}

/// The value of the entry-id counter: 0 until it is seeded.
pub open spec fn counter_value(counter: Option<u64>) -> u64 {
    match counter {
        Some(c) => c,
        None => 0,
    }
}

/// Why an org may not change its watched entries, if it may not: it is
/// not registered, or it has been deactivated.
pub open spec fn org_change_error(cfg: Option<OrgConfigView>) -> Option<Error> {
    match cfg {
        None => Some(Error::OrgNotFound),
        Some(c) => if !c.active {
            Some(Error::OrgInactive)
        } else {
            None
        },
    }
}

/// Why an extension policy is refused, if it is: the threshold must lie
/// strictly below the extension target.
pub open spec fn threshold_error(extend_threshold_ledgers: u32, extend_to_ledgers: u32) -> Option<
    Error,
> {
    if extend_threshold_ledgers >= extend_to_ledgers {
        Some(Error::InvalidThreshold)
    } else {
        None
    }
}

/// Why adding a watched entry is refused, if it is.
pub open spec fn add_error(
    cfg: Option<OrgConfigView>,
    extend_threshold_ledgers: u32,
    extend_to_ledgers: u32,
) -> Option<Error> {
    match org_change_error(cfg) {
        Some(e) => Some(e),
        None => threshold_error(extend_threshold_ledgers, extend_to_ledgers),
    }
}

/// Why `org` may not change or remove a stored watched entry, if it may
/// not: the org's own standing first, then the entry must exist and be the
/// org's.
pub open spec fn entry_change_error(
    cfg: Option<OrgConfigView>,
    entry: Option<WatchedEntryView>,
    org: Seq<u8>,
) -> Option<Error> {
    match org_change_error(cfg) {
        Some(e) => Some(e),
        None => match entry {
            None => Some(Error::EntryNotFound),
            Some(e) => if e.org != org {
                Some(Error::NotEntryOwner)
            } else {
                None
            },
        },
    }
}

/// Why changing the extension policy of a stored entry is refused, if it is.
pub open spec fn update_error(
    cfg: Option<OrgConfigView>,
    entry: Option<WatchedEntryView>,
    org: Seq<u8>,
    extend_threshold_ledgers: u32,
    extend_to_ledgers: u32,
) -> Option<Error> {
    match entry_change_error(cfg, entry, org) {
        Some(e) => Some(e),
        None => threshold_error(extend_threshold_ledgers, extend_to_ledgers),
    }
}

/// Why deactivating an org is refused, if it is: it is not registered, or
/// it is already inactive.
pub open spec fn deactivate_error(cfg: Option<OrgConfigView>) -> Option<Error> {
    org_change_error(cfg)
}

/// The entry `e` with the extension policy replaced.
pub open spec fn with_policy_view(
    e: WatchedEntryView,
    extend_threshold_ledgers: u32,
    extend_to_ledgers: u32,
    auto_extend: bool,
) -> WatchedEntryView {
    WatchedEntryView { extend_threshold_ledgers, extend_to_ledgers, auto_extend, ..e }
}

/// A stored list of entry ids, as plain values: empty when none is stored.
pub open spec fn ids_view(ids: Option<&Vec<u64>>) -> Seq<u64> {
    match ids {
        Some(v) => v@,
        None => Seq::empty(),
    }
}

/// The entry points of the registry.
#[derive(Clone, Copy, Debug, PartialEq, Eq, Structural)]
pub enum EntryPoint {
    Init,
    RegisterOrg,
    AddWatchedEntry,
    RemoveWatchedEntry,
    UpdateEntryPolicy,
    GetOrgEntries,
    GetEntry,
    DeactivateOrg,
}

/// Whose authorization an entry point needs.
#[derive(Clone, Copy, Debug, PartialEq, Eq, Structural)]
pub enum Signer {
    /// Anyone may call it.
    Nobody,
    /// The org named in the call must authorize it.
    Org,
}

/// The authorization rule of the registry: every call that changes an
/// org's data is authorized by that org; `init` and the reads need none.
pub open spec fn signer_of(call: EntryPoint) -> Signer {
    match call {
        EntryPoint::Init | EntryPoint::GetOrgEntries | EntryPoint::GetEntry => Signer::Nobody,
        EntryPoint::RegisterOrg | EntryPoint::AddWatchedEntry | EntryPoint::RemoveWatchedEntry
        | EntryPoint::UpdateEntryPolicy | EntryPoint::DeactivateOrg => Signer::Org,
    }
}

/// Whose authorization `call` needs.
pub fn required_signer(call: EntryPoint) -> (r: Signer)
    ensures
        r == signer_of(call),
{
    match call {
        EntryPoint::Init | EntryPoint::GetOrgEntries | EntryPoint::GetEntry => Signer::Nobody,
        EntryPoint::RegisterOrg | EntryPoint::AddWatchedEntry | EntryPoint::RemoveWatchedEntry
        | EntryPoint::UpdateEntryPolicy | EntryPoint::DeactivateOrg => Signer::Org,
    }
}

/// Decides `init`, given the stored counter: the counter's seed, 0, to be
/// written; or `None` when the counter is already seeded, and `init` must
/// then be refused with a panic.
pub fn seed_counter(stored: Option<u64>) -> (r: Option<u64>)
    ensures
        r == (match stored {
            None => Some(0u64),
            Some(_) => None::<u64>,
        }),
{
    match stored {
        None => Some(0),
        Some(_) => None,
    }
}

/// Decides the registration of `org` with `admin` and the webhook hash,
/// given the org's stored config: an active config, to be stored and
/// published; or `None` when the org is already registered, and the call
/// must then be refused with a panic.
pub fn register(stored: Option<&OrgConfig>, org: &AccountId, admin: AccountId, notify_webhook: [u8; 32]) -> (r:
    Option<OrgRegistered>)
    ensures
        match stored {
            Some(_) => r is None,
            None => r matches Some(ev) && ev.org@ == org@ && ev.config@ == (OrgConfigView {
                admin: admin@,
                notify_webhook: notify_webhook@,
                active: true,
            }),
        },
{
    match stored {
        Some(_) => None,
        None => Some(
            OrgRegistered {
                org: org.duplicate(),
                config: OrgConfig { admin, notify_webhook, active: true },
            },
        ),
    }
}

/// The cells that adding a watched entry writes: the entry itself, the
/// counter's new value, and the org's new list of entry ids.
pub struct EntryPlan {
    pub entry: WatchedEntry,
    pub next_entry_id: u64,
    pub org_entry_ids: Vec<u64>,
}

/// Decides the addition of a watched entry by `org`, whose stored config
/// is `cfg` and stored list of entry ids is `ids`, with the entry-id
/// counter at `counter`. On success the new entry takes the id after the
/// counter (the first is 1); that id becomes the counter's value and goes
/// at the end of the org's list. `Temporary` storage is excluded by design,
/// since it cannot be meaningfully TTL-watched; there is no error for it,
/// so `requires` leaves it out and the deployed contract panics on it.
pub fn plan_entry(
    cfg: Option<&OrgConfig>,
    counter: Option<u64>,
    ids: Option<&Vec<u64>>,
    org: &AccountId,
    contract_id: AccountId,
    durability: Durability,
    key: Option<Vec<u8>>,
    extend_threshold_ledgers: u32,
    extend_to_ledgers: u32,
    auto_extend: bool,
    now: u64,
) -> (r: Result<EntryPlan, Error>)
    requires
        counter_value(counter) < u64::MAX,
        durability != Durability::Temporary,
    ensures
        match add_error(config_view(cfg), extend_threshold_ledgers, extend_to_ledgers) {
            Some(e) => r matches Err(e2) && e2 == e,
            None => r matches Ok(plan) && plan.entry@ == (WatchedEntryView {
                id: (counter_value(counter) + 1) as u64,
                org: org@,
                contract_id: contract_id@,
                durability,
                key: key_view(key),
                extend_threshold_ledgers,
                extend_to_ledgers,
                auto_extend,
                created_at: now,
            }) && plan.next_entry_id == plan.entry.id && plan.org_entry_ids@ == ids_view(ids).push(
                plan.entry.id,
            ),
        },
{
    match cfg {
        None => {
            return Err(Error::OrgNotFound);
        },
        Some(c) => {
            if !c.active {
                return Err(Error::OrgInactive);
            }
        },
    }
    if extend_threshold_ledgers >= extend_to_ledgers {
        return Err(Error::InvalidThreshold);
    }
    let id = match counter {
        Some(c) => c + 1,
        None => 1,
    };
    let mut org_entry_ids: Vec<u64> = match ids {
        Some(v) => {
            let c = v.clone();
            assert(c@ =~= v@);
            c
        },
        None => Vec::new(),
    };
    org_entry_ids.push(id);
    let entry = WatchedEntry {
        id,
        org: org.duplicate(),
        contract_id,
        durability,
        key,
        extend_threshold_ledgers,
        extend_to_ledgers,
        auto_extend,
        created_at: now,
    };
    Ok(EntryPlan { entry, next_entry_id: id, org_entry_ids })
}

/// Decides whether `org`, whose stored config is `cfg`, may change or
/// remove the stored entry `entry`; when it may, hands the entry back.
pub fn check_entry_change<'a>(
    cfg: Option<&OrgConfig>,
    entry: Option<&'a WatchedEntry>,
    org: &AccountId,
) -> (r: Result<&'a WatchedEntry, Error>)
    ensures
        match entry_change_error(config_view(cfg), entry_view(entry), org@) {
            Some(e) => r matches Err(e2) && e2 == e,
            None => r matches Ok(x) && entry == Some(x),
        },
{
    match cfg {
        None => {
            return Err(Error::OrgNotFound);
        },
        Some(c) => {
            if !c.active {
                return Err(Error::OrgInactive);
            }
        },
    }
    match entry {
        None => Err(Error::EntryNotFound),
        Some(e) => {
            if !e.org.same_as(org) {
                Err(Error::NotEntryOwner)
            } else {
                Ok(e)
            }
        },
    }
}

/// The list of entry ids without the first occurrence of `id`, in the
/// same order otherwise.
pub fn without_id(ids: &Vec<u64>, id: u64) -> (r: Vec<u64>)
    ensures
        r@ == ids@.remove_value(id),
{
    let n = ids.len();
    let mut i: usize = 0;
    while i < n
        invariant
            n == ids@.len(),
            i <= n,
            forall|j: int| 0 <= j < i ==> ids@[j] != id,
        decreases n - i,
    {
        if ids[i] == id {
            let mut rest = ids.clone();
            assert(rest@ =~= ids@);
            rest.remove(i);
            proof {
                ids@.index_of_first_ensures(id);
                assert(ids@.contains(id));
                let p = ids@.index_of_first(id)->Some_0;
                assert(p == i as int);
            }
            return rest;
        }
        i = i + 1;
    }
    proof {
        ids@.index_of_first_ensures(id);
    }
    let rest = ids.clone();
    assert(rest@ =~= ids@);
    rest
}

/// The stored entry with its extension policy replaced, or
/// [`Error::InvalidThreshold`] when the threshold does not lie strictly
/// below the extension target.
pub fn with_policy(
    entry: &WatchedEntry,
    extend_threshold_ledgers: u32,
    extend_to_ledgers: u32,
    auto_extend: bool,
) -> (r: Result<WatchedEntry, Error>)
    ensures
        match threshold_error(extend_threshold_ledgers, extend_to_ledgers) {
            Some(e) => r matches Err(e2) && e2 == e,
            None => r matches Ok(u) && u@ == with_policy_view(
                entry@,
                extend_threshold_ledgers,
                extend_to_ledgers,
                auto_extend,
            ) && u.extend_threshold_ledgers == extend_threshold_ledgers && u.extend_to_ledgers
                == extend_to_ledgers && u.auto_extend == auto_extend && u.id == entry.id,
        },
{
    if extend_threshold_ledgers >= extend_to_ledgers {
        return Err(Error::InvalidThreshold);
    }
    Ok(
        WatchedEntry {
            id: entry.id,
            org: entry.org.duplicate(),
            contract_id: entry.contract_id.duplicate(),
            durability: entry.durability,
            key: copy_key(&entry.key),
            extend_threshold_ledgers,
            extend_to_ledgers,
            auto_extend,
            created_at: entry.created_at,
        },
    )
}

/// The stored org config marked inactive, or why the org cannot be
/// deactivated.
pub fn deactivated(cfg: Option<&OrgConfig>) -> (r: Result<OrgConfig, Error>)
    ensures
        match deactivate_error(config_view(cfg)) {
            Some(e) => r matches Err(e2) && e2 == e,
            None => r matches Ok(c) && c@ == (OrgConfigView {
                active: false,
                ..config_view(cfg)->Some_0
            }),
        },
{
    match cfg {
        None => Err(Error::OrgNotFound),
        Some(c) => {
            if !c.active {
                Err(Error::OrgInactive)
            } else {
                let mut d = c.duplicate();
                d.active = false;
                Ok(d)
            }
        },
    }
}

/// Decides the removal of the entry `entry_id` by `org`, given the org's
/// stored config `cfg`, the stored entry `entry` and the org's stored list
/// of entry ids `ids`: on success, the org's new list, without that id, in
/// the same order otherwise. The entry's own cell is then deleted.
pub fn plan_removal(
    cfg: Option<&OrgConfig>,
    entry: Option<&WatchedEntry>,
    ids: Option<&Vec<u64>>,
    org: &AccountId,
    entry_id: u64,
) -> (r: Result<Vec<u64>, Error>)
    ensures
        match entry_change_error(config_view(cfg), entry_view(entry), org@) {
            Some(e) => r matches Err(e2) && e2 == e,
            None => r matches Ok(v) && v@ == ids_view(ids).remove_value(entry_id),
        },
{
    check_entry_change(cfg, entry, org)?;
    match ids {
        Some(v) => Ok(without_id(v, entry_id)),
        None => {
            proof {
                Seq::<u64>::empty().index_of_first_ensures(entry_id);
                assert(Seq::<u64>::empty().remove_value(entry_id) =~= Seq::<u64>::empty());
            }
            Ok(Vec::new())
        },
    }
}

/// Decides the change of extension policy of the stored entry `entry` by
/// `org`, whose stored config is `cfg`: on success, the entry to store, with
/// the policy replaced and all else kept.
pub fn plan_policy_update(
    cfg: Option<&OrgConfig>,
    entry: Option<&WatchedEntry>,
    org: &AccountId,
    extend_threshold_ledgers: u32,
    extend_to_ledgers: u32,
    auto_extend: bool,
) -> (r: Result<WatchedEntry, Error>)
    ensures
        match update_error(
            config_view(cfg),
            entry_view(entry),
            org@,
            extend_threshold_ledgers,
            extend_to_ledgers,
        ) {
            Some(e) => r matches Err(e2) && e2 == e,
            None => r matches Ok(u) && u@ == with_policy_view(
                entry_view(entry)->Some_0,
                extend_threshold_ledgers,
                extend_to_ledgers,
                auto_extend,
            ) && u.extend_threshold_ledgers == extend_threshold_ledgers && u.extend_to_ledgers
                == extend_to_ledgers && u.auto_extend == auto_extend,
        },
{
    let current = check_entry_change(cfg, entry, org)?;
    with_policy(current, extend_threshold_ledgers, extend_to_ledgers, auto_extend)
}

/// Decides a read of one entry: the stored entry, or
/// [`Error::EntryNotFound`] when none is stored under the id.
pub fn read_entry(entry: Option<&WatchedEntry>) -> (r: Result<&WatchedEntry, Error>)
    ensures
        match entry {
            Some(e) => r matches Ok(x) && x == e,
            None => r matches Err(e) && e == Error::EntryNotFound,
        },
{
    match entry {
        Some(e) => Ok(e),
        None => Err(Error::EntryNotFound),
    }
}

} // verus!
