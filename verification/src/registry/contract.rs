//! The watch-list registry's storage, as one value, with its entry points.
use vstd::prelude::*;
use crate::account::{AccountId, AccountMap};
use crate::registry::errors::Error;
use crate::registry::rules::{
    EntryPlan,
    add_error,
    deactivate_error,
    deactivated,
    entry_change_error,
    plan_entry,
    plan_policy_update,
    plan_removal,
    read_entry,
    register,
    seed_counter,
    update_error,
    with_policy_view,
};
use crate::registry::state::{
    lemma_add_keeps_consistent,
    lemma_init_keeps_consistent,
    lemma_store_org_keeps_consistent,
    lemma_remove_keeps_consistent,
    lemma_update_keeps_consistent,
    RegistryState,
};
use crate::registry::table::EntryTable;
use crate::registry::types::{
    key_view,
    Durability,
    EntryAdded,
    EntryPolicyUpdated,
    EntryRemoved,
    OrgConfig,
    OrgConfigView,
    OrgDeactivated,
    OrgRegistered,
    WatchedEntry,
    WatchedEntryView,
};

verus! {

/// The watch-list registry: orgs register, then add, change and remove
/// "watched entries" (a contract + storage key pair, with an extension
/// policy) whose TTL the off-chain keeper monitors and extends.
pub struct RegistryContract {
    next_entry_id: Option<u64>,
    orgs: AccountMap<OrgConfig>,
    entries: EntryTable,
    org_entry_ids: AccountMap<Vec<u64>>,
}

impl View for RegistryContract {
    type V = RegistryState;

    closed spec fn view(&self) -> RegistryState {
        RegistryState {
            next_entry_id: self.next_entry_id,
            orgs: self.orgs@,
            entries: self.entries@,
            org_entry_ids: self.org_entry_ids@,
        }
    }
}

impl RegistryContract {
    /// The storage is well formed, and consistent.
    pub closed spec fn wf(&self) -> bool {
        &&& self.orgs.wf()
        &&& self.entries.wf()
        &&& self.org_entry_ids.wf()
        &&& self@.consistent()
    }

    /// Law: the storage of the registry is always consistent.
    pub proof fn lemma_consistent(&self)
        requires
            self.wf(),
        ensures
            self@.consistent(),
    {
    }

    /// The storage of a freshly deployed contract: nothing stored.
    pub fn new() -> (c: RegistryContract)
        ensures
            c.wf(),
            c@ == (RegistryState {
                next_entry_id: None,
                orgs: Map::empty(),
                entries: Map::empty(),
                org_entry_ids: Map::empty(),
            }),
    {
        let c = RegistryContract {
            next_entry_id: None,
            orgs: AccountMap::new(),
            entries: EntryTable::new(),
            org_entry_ids: AccountMap::new(),
        };
        assert(forall|o: Seq<u8>| #[trigger] c@.ids_of(o) == Seq::<u64>::empty());
        c
    }

    /// Whether the entry-id counter is seeded, i.e. `init` has run.
    pub fn is_initialized(&self) -> (r: bool)
        ensures
            r == self@.next_entry_id is Some,
    {
        self.next_entry_id.is_some()
    }

    /// Initializes the registry: seeds the entry-id counter at 0. Only one
    /// initialization is possible: `requires` leaves out a second one.
    pub fn init(&mut self)
        requires
            old(self).wf(),
            old(self)@.next_entry_id is None,
        ensures
            final(self).wf(),
            final(self)@ == old(self)@.after_init(),
    {
        proof {
            lemma_init_keeps_consistent(self@);
        }
        self.next_entry_id = seed_counter(self.next_entry_id);
    }

    /// Whether the entry-id counter can hand out another id, i.e. has not
    /// reached the largest `u64`: the condition under which
    /// `add_watched_entry` may be called.
    pub fn can_add_entry(&self) -> (r: bool)
        ensures
            r == (self@.counter() < u64::MAX),
    {
        match self.next_entry_id {
            Some(c) => c < u64::MAX,
            None => true,
        }
    }

    /// Whether `org` is registered.
    pub fn is_registered(&self, org: &AccountId) -> (r: bool)
        requires
            self.wf(),
        ensures
            r == self@.orgs.contains_key(org@),
    {
        self.orgs.contains(org)
    }

    /// Registers `org` with an admin address and the SHA-256 hash of its
    /// notification webhook; the org starts active. Registering an org
    /// twice is a caller error: `requires` leaves it out.
    pub fn register_org(&mut self, org: &AccountId, admin: AccountId, notify_webhook: [u8; 32]) -> (r:
        OrgRegistered)
        requires
            old(self).wf(),
            !old(self)@.orgs.contains_key(org@),
        ensures
            final(self).wf(),
            r.org@ == org@,
            r.config@ == (OrgConfigView {
                admin: admin@,
                notify_webhook: notify_webhook@,
                active: true,
            }),
            final(self)@ == old(self)@.with_org(org@, r.config@),
    {
        let ev = register(self.orgs.get(org), org, admin, notify_webhook).unwrap();
        proof {
            lemma_store_org_keeps_consistent(self@, org@, ev.config@);
        }
        self.orgs.insert(org.duplicate(), ev.config.duplicate());
        ev
    }

    /// Adds a watched entry for `org` and publishes it. The entry takes the
    /// id after the last one handed out (the first is 1) and goes at the end
    /// of the org's list. Refused when the org is not registered, is
    /// inactive, or the threshold does not lie strictly below the extension
    /// target; nothing changes then. `requires` leaves out `Temporary`
    /// durability, which is excluded by design and has no error (see
    /// `rules::watchable`), and a counter that has reached the largest `u64`
    /// (see `can_add_entry`); the deployed contract panics on both.
    pub fn add_watched_entry(
        &mut self,
        org: &AccountId,
        contract_id: AccountId,
        durability: Durability,
        key: Option<Vec<u8>>,
        extend_threshold_ledgers: u32,
        extend_to_ledgers: u32,
        auto_extend: bool,
        now: u64,
    ) -> (r: Result<EntryAdded, Error>)
        requires
            old(self).wf(),
            old(self)@.counter() < u64::MAX,
            durability != Durability::Temporary,
        ensures
            final(self).wf(),
            match add_error(old(self)@.org(org@), extend_threshold_ledgers, extend_to_ledgers) {
                Some(e) => r matches Err(e2) && e2 == e && final(self)@ == old(self)@,
                None => r matches Ok(ev) && ev.entry_id == old(self)@.counter() + 1 && ev.entry@
                    == (WatchedEntryView {
                    id: ev.entry_id,
                    org: org@,
                    contract_id: contract_id@,
                    durability,
                    key: key_view(key),
                    extend_threshold_ledgers,
                    extend_to_ledgers,
                    auto_extend,
                    created_at: now,
                }) && final(self)@ == old(self)@.after_add(ev.entry@),
            },
    {
        let plan = plan_entry(
            self.orgs.get(org),
            self.next_entry_id,
            self.org_entry_ids.get(org),
            org,
            contract_id,
            durability,
            key,
            extend_threshold_ledgers,
            extend_to_ledgers,
            auto_extend,
            now,
        )?;
        let EntryPlan { entry, next_entry_id, org_entry_ids } = plan;
        let id = entry.id;
        proof {
            lemma_add_keeps_consistent(self@, entry@);
        }
        self.org_entry_ids.insert(org.duplicate(), org_entry_ids);
        self.next_entry_id = Some(next_entry_id);
        self.entries.insert(entry.duplicate());
        Ok(EntryAdded { entry_id: id, entry })
    }

    /// Removes the watched entry `entry_id` of `org` and drops its id from
    /// the org's list. An inactive org is refused here just as when it adds
    /// an entry. Refused when the org is not registered or inactive,
    /// when no entry has that id, or when the entry is another org's;
    /// nothing changes then.
    pub fn remove_watched_entry(&mut self, org: &AccountId, entry_id: u64) -> (r: Result<
        EntryRemoved,
        Error,
    >)
        requires
            old(self).wf(),
        ensures
            final(self).wf(),
            match entry_change_error(old(self)@.org(org@), old(self)@.entry(entry_id), org@) {
                Some(e) => r matches Err(e2) && e2 == e && final(self)@ == old(self)@,
                None => r matches Ok(ev) && ev.entry_id == entry_id && final(self)@ == old(
                    self,
                )@.after_remove(org@, entry_id),
            },
    {
        let ids = plan_removal(
            self.orgs.get(org),
            self.entries.get(entry_id),
            self.org_entry_ids.get(org),
            org,
            entry_id,
        )?;
        proof {
            lemma_remove_keeps_consistent(self@, org@, entry_id);
        }
        self.org_entry_ids.insert(org.duplicate(), ids);
        self.entries.remove(entry_id);
        Ok(EntryRemoved { entry_id })
    }

    /// Replaces the extension policy of the watched entry `entry_id` of
    /// `org`; all else of the entry stays. An inactive org is refused here
    /// just as when it adds an entry. Refused when the org is not
    /// registered or inactive, when no entry has that id, when the entry is
    /// another org's, or when the threshold does not lie strictly below the
    /// extension target; nothing changes then.
    pub fn update_entry_policy(
        &mut self,
        org: &AccountId,
        entry_id: u64,
        extend_threshold_ledgers: u32,
        extend_to_ledgers: u32,
        auto_extend: bool,
    ) -> (r: Result<EntryPolicyUpdated, Error>)
        requires
            old(self).wf(),
        ensures
            final(self).wf(),
            match update_error(
                old(self)@.org(org@),
                old(self)@.entry(entry_id),
                org@,
                extend_threshold_ledgers,
                extend_to_ledgers,
            ) {
                Some(e) => r matches Err(e2) && e2 == e && final(self)@ == old(self)@,
                None => r matches Ok(ev) && ev.entry_id == entry_id && ev.entry@ == with_policy_view(
                    old(self)@.entries[entry_id],
                    extend_threshold_ledgers,
                    extend_to_ledgers,
                    auto_extend,
                ) && ev.entry.extend_threshold_ledgers == extend_threshold_ledgers
                    && ev.entry.extend_to_ledgers == extend_to_ledgers && ev.entry.auto_extend
                    == auto_extend && final(self)@.entries[entry_id].auto_extend == auto_extend
                    && final(self)@ == old(self)@.after_update(ev.entry@),
            },
    {
        let updated = plan_policy_update(
            self.orgs.get(org),
            self.entries.get(entry_id),
            org,
            extend_threshold_ledgers,
            extend_to_ledgers,
            auto_extend,
        )?;
        proof {
            lemma_update_keeps_consistent(self@, updated@);
        }
        self.entries.insert(updated.duplicate());
        Ok(EntryPolicyUpdated { entry_id, entry: updated })
    }

    /// All entries of `org`, in the order it added them (none for an org
    /// that never added one).
    pub fn get_org_entries(&self, org: &AccountId) -> (r: Vec<WatchedEntry>)
        requires
            self.wf(),
        ensures
            r@.len() == self@.ids_of(org@).len(),
            forall|i: int| 0 <= i < r@.len() ==> #[trigger] r@[i]@ == self@.entries_of(org@)[i],
    {
        let ghost s = self@;
        let mut out: Vec<WatchedEntry> = Vec::new();
        match self.org_entry_ids.get(org) {
            None => out,
            Some(ids) => {
                let n = ids.len();
                let mut i: usize = 0;
                while i < n
                    invariant
                        self.wf(),
                        s == self@,
                        ids@ == s.ids_of(org@),
                        n == ids@.len(),
                        i <= n,
                        out@.len() == i,
                        forall|j: int| 0 <= j < i ==> #[trigger] out@[j]@ == s.entries_of(org@)[j],
                    decreases n - i,
                {
                    let id = ids[i];
                    assert(s.entries.contains_key(s.ids_of(org@)[i as int]));
                    match self.entries.get(id) {
                        Some(e) => {
                            out.push(e.duplicate());
                        },
                        None => {
                            assert(false);
                        },
                    }
                    i = i + 1;
                }
                out
            },
        }
    }

    /// The watched entry with id `entry_id`, or [`Error::EntryNotFound`].
    pub fn get_entry(&self, entry_id: u64) -> (r: Result<WatchedEntry, Error>)
        requires
            self.wf(),
        ensures
            match self@.entry(entry_id) {
                Some(e) => r matches Ok(x) && x@ == e,
                None => r matches Err(e) && e == Error::EntryNotFound,
            },
    {
        let e = read_entry(self.entries.get(entry_id))?;
        Ok(e.duplicate())
    }

    /// Deactivates `org`: it can no longer add, change or remove entries;
    /// its existing entries stay readable. Refused when the org is not
    /// registered or already inactive; nothing changes then.
    pub fn deactivate_org(&mut self, org: &AccountId) -> (r: Result<OrgDeactivated, Error>)
        requires
            old(self).wf(),
        ensures
            final(self).wf(),
            match deactivate_error(old(self)@.org(org@)) {
                Some(e) => r matches Err(e2) && e2 == e && final(self)@ == old(self)@,
                None => r matches Ok(ev) && ev.org@ == org@ && final(self)@ == old(
                    self,
                )@.with_org(org@, OrgConfigView { active: false, ..old(self)@.orgs[org@] }),
            },
    {
        let cfg = deactivated(self.orgs.get(org))?;
        proof {
            lemma_store_org_keeps_consistent(self@, org@, cfg@);
        }
        self.orgs.insert(org.duplicate(), cfg);
        Ok(OrgDeactivated { org: org.duplicate() })
    }
}

} // verus!
