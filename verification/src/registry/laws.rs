//! Laws of the watch-list registry that relate its entry points.
use vstd::prelude::*;
use crate::registry::errors::Error;
use crate::registry::rules::{
    add_error,
    deactivate_error,
    entry_change_error,
    org_change_error,
    update_error,
    with_policy_view,
};
use crate::registry::state::{lemma_remove_value_increasing, strictly_increasing, RegistryState};
use crate::registry::types::{OrgConfigView, WatchedEntryView};

verus! {

/// Law: an org's list names exactly the stored entries that the org owns,
/// each once, in increasing id order, which is the order in which they
/// were added.
pub proof fn lemma_org_list_is_org_entries(s: RegistryState, org: Seq<u8>, id: u64)
    requires
        s.consistent(),
    ensures
        s.ids_of(org).contains(id) <==> (s.entries.contains_key(id) && s.entries[id].org == org),
        strictly_increasing(s.ids_of(org)),
        s.ids_of(org).no_duplicates(),
{
    assert(strictly_increasing(s.ids_of(org)));
    if s.ids_of(org).contains(id) {
        let k = choose|k: int| 0 <= k < s.ids_of(org).len() && s.ids_of(org)[k] == id;
        assert(s.entries.contains_key(s.ids_of(org)[k]));
    }
    assert forall|i: int, j: int|
        0 <= i < s.ids_of(org).len() && 0 <= j < s.ids_of(org).len() && i != j implies s.ids_of(
        org,
    )[i] != s.ids_of(org)[j] by {
        if i < j {
            assert(s.ids_of(org)[i] < s.ids_of(org)[j]);
        } else {
            assert(s.ids_of(org)[j] < s.ids_of(org)[i]);
        }
    }
}

/// Law: ids are never reused. The id that the next entry takes is held by
/// no stored entry, and no entry point lowers the counter: adding raises it
/// to the new id, and every other change keeps it.
pub proof fn lemma_ids_never_reused(
    s: RegistryState,
    e: WatchedEntryView,
    u: WatchedEntryView,
    org: Seq<u8>,
    cfg: OrgConfigView,
    id: u64,
)
    requires
        s.consistent(),
        s.counter() < u64::MAX,
    ensures
        !s.entries.contains_key((s.counter() + 1) as u64),
        e.id == s.counter() + 1 ==> s.after_add(e).counter() == s.counter() + 1,
        s.after_remove(org, id).counter() == s.counter(),
        s.after_update(u).counter() == s.counter(),
        s.with_org(org, cfg).counter() == s.counter(),
        s.next_entry_id is None ==> s.after_init().counter() == s.counter(),
{
}

/// Law: reading an entry back after adding it gives the entry, and the
/// org's entries are the ones it had, followed by the new one; every
/// other org's entries stay as they were.
pub proof fn lemma_add_then_read(s: RegistryState, e: WatchedEntryView, other: Seq<u8>)
    requires
        s.consistent(),
        s.orgs.contains_key(e.org),
        e.id == s.counter() + 1,
    ensures
        s.after_add(e).entry(e.id) == Some(e),
        s.after_add(e).entries_of(e.org) == s.entries_of(e.org).push(e),
        other != e.org ==> s.after_add(e).entries_of(other) == s.entries_of(other),
        s.after_add(e).counter() > s.counter(),
{
    let t = s.after_add(e);
    assert forall|i: int, o: Seq<u8>| 0 <= i < s.ids_of(o).len() implies #[trigger] s.ids_of(o)[i]
        != e.id by {
        assert(s.entries.contains_key(s.ids_of(o)[i]));
    }
    assert(t.entries_of(e.org) =~= s.entries_of(e.org).push(e));
    if other != e.org {
        assert(t.ids_of(other) == s.ids_of(other));
        assert(t.entries_of(other) =~= s.entries_of(other));
    }
}

/// Law: after an org removes one of its entries, reading it back finds no
/// entry; the org's entries are the ones it had, without that one, in the
/// same order; the counter stays.
pub proof fn lemma_remove_then_read(s: RegistryState, org: Seq<u8>, id: u64)
    requires
        s.consistent(),
        entry_change_error(s.org(org), s.entry(id), org) is None,
    ensures
        s.after_remove(org, id).entry(id) is None,
        s.after_remove(org, id).ids_of(org) == s.ids_of(org).remove_value(id),
        !s.after_remove(org, id).ids_of(org).contains(id),
        s.after_remove(org, id).counter() == s.counter(),
        forall|x: u64|
            x != id ==> s.after_remove(org, id).entry(x) == s.entry(x),
{
    assert(strictly_increasing(s.ids_of(org)));
    lemma_remove_value_increasing(s.ids_of(org), id);
}

/// Law: a deactivated org can no longer add, change or remove entries,
/// while its entries stay readable.
pub proof fn lemma_deactivated_org_is_frozen(
    s: RegistryState,
    org: Seq<u8>,
    id: u64,
    extend_threshold_ledgers: u32,
    extend_to_ledgers: u32,
)
    requires
        org_change_error(s.org(org)) is None,
    ensures
        ({
            let t = s.with_org(org, OrgConfigView { active: false, ..s.orgs[org] });
            &&& add_error(t.org(org), extend_threshold_ledgers, extend_to_ledgers) == Some(
                Error::OrgInactive,
            )
            &&& entry_change_error(t.org(org), t.entry(id), org) == Some(Error::OrgInactive)
            &&& t.entry(id) == s.entry(id)
            &&& t.entries_of(org) == s.entries_of(org)
        }),
{
    let t = s.with_org(org, OrgConfigView { active: false, ..s.orgs[org] });
    assert(t.entries_of(org) =~= s.entries_of(org));
}

/// Law: once `init` has seeded the counter, every later `init` is refused.
/// No entry point unseeds the counter or lowers it, and on a seeded counter
/// the init decision (`seed_counter`) refuses; so the counter is never
/// reset, and ids are never handed out twice.
pub proof fn lemma_init_only_once(
    s: RegistryState,
    e: WatchedEntryView,
    u: WatchedEntryView,
    org: Seq<u8>,
    cfg: OrgConfigView,
    id: u64,
)
    requires
        s.next_entry_id is Some,
    ensures
        e.id == s.counter() + 1 ==> s.after_add(e).next_entry_id is Some && s.after_add(e).counter()
            > s.counter(),
        s.after_remove(org, id).next_entry_id == s.next_entry_id,
        s.after_update(u).next_entry_id == s.next_entry_id,
        s.with_org(org, cfg).next_entry_id == s.next_entry_id,
{
}

/// Law: a policy update stores exactly the policy given, whatever the
/// entry held before: the threshold, the extension target and the
/// auto-extend flag all take the arguments' values, and nothing else of
/// the entry changes.
pub proof fn lemma_policy_update_replaces_policy(
    e: WatchedEntryView,
    extend_threshold_ledgers: u32,
    extend_to_ledgers: u32,
    auto_extend: bool,
)
    ensures
        ({
            let u = with_policy_view(e, extend_threshold_ledgers, extend_to_ledgers, auto_extend);
            &&& u.extend_threshold_ledgers == extend_threshold_ledgers
            &&& u.extend_to_ledgers == extend_to_ledgers
            &&& u.auto_extend == auto_extend
            &&& u.id == e.id
            &&& u.org == e.org
            &&& u.contract_id == e.contract_id
            &&& u.durability == e.durability
            &&& u.key == e.key
            &&& u.created_at == e.created_at
        }),
{
}

/// Law: when adding an entry is refused, and when it succeeds. An
/// unregistered org is refused with `OrgNotFound`, an inactive one with
/// `OrgInactive`; for a registered active org the addition succeeds exactly
/// when the threshold lies strictly below the extension target, and is
/// refused with `InvalidThreshold` otherwise.
pub proof fn lemma_add_refusals(
    cfg: Option<OrgConfigView>,
    extend_threshold_ledgers: u32,
    extend_to_ledgers: u32,
)
    ensures
        cfg is None ==> add_error(cfg, extend_threshold_ledgers, extend_to_ledgers) == Some(
            Error::OrgNotFound,
        ),
        cfg matches Some(c) && !c.active ==> add_error(
            cfg,
            extend_threshold_ledgers,
            extend_to_ledgers,
        ) == Some(Error::OrgInactive),
        cfg matches Some(c) && c.active ==> (add_error(
            cfg,
            extend_threshold_ledgers,
            extend_to_ledgers,
        ) is None <==> extend_threshold_ledgers < extend_to_ledgers),
        cfg matches Some(c) && c.active && extend_threshold_ledgers >= extend_to_ledgers
            ==> add_error(cfg, extend_threshold_ledgers, extend_to_ledgers) == Some(
            Error::InvalidThreshold,
        ),
{
}

/// Law: an org may change or remove a stored entry exactly when the org is
/// registered and active and the entry exists and is the org's, whatever
/// the entry's durability, key or policy. Otherwise the refusal is, in
/// this order: `OrgNotFound`, `OrgInactive`, `EntryNotFound`,
/// `NotEntryOwner`.
pub proof fn lemma_entry_change_refusals(
    cfg: Option<OrgConfigView>,
    entry: Option<WatchedEntryView>,
    org: Seq<u8>,
)
    ensures
        entry_change_error(cfg, entry, org) is None <==> (cfg is Some && cfg->Some_0.active
            && entry is Some && entry->Some_0.org == org),
        cfg is None ==> entry_change_error(cfg, entry, org) == Some(Error::OrgNotFound),
        cfg matches Some(c) && !c.active ==> entry_change_error(cfg, entry, org) == Some(
            Error::OrgInactive,
        ),
        cfg matches Some(c) && c.active && entry is None ==> entry_change_error(cfg, entry, org)
            == Some(Error::EntryNotFound),
        cfg is Some && cfg->Some_0.active && entry is Some && entry->Some_0.org != org
            ==> entry_change_error(cfg, entry, org) == Some(Error::NotEntryOwner),
{
}

/// Law: a policy update succeeds exactly when the org may change the entry
/// and the new threshold lies strictly below the new extension target; an
/// allowed change with a bad threshold is refused with `InvalidThreshold`.
pub proof fn lemma_update_refusals(
    cfg: Option<OrgConfigView>,
    entry: Option<WatchedEntryView>,
    org: Seq<u8>,
    extend_threshold_ledgers: u32,
    extend_to_ledgers: u32,
)
    ensures
        update_error(cfg, entry, org, extend_threshold_ledgers, extend_to_ledgers) is None <==> (
        entry_change_error(cfg, entry, org) is None && extend_threshold_ledgers
            < extend_to_ledgers),
        entry_change_error(cfg, entry, org) is Some ==> update_error(
            cfg,
            entry,
            org,
            extend_threshold_ledgers,
            extend_to_ledgers,
        ) == entry_change_error(cfg, entry, org),
        entry_change_error(cfg, entry, org) is None && extend_threshold_ledgers
            >= extend_to_ledgers ==> update_error(
            cfg,
            entry,
            org,
            extend_threshold_ledgers,
            extend_to_ledgers,
        ) == Some(Error::InvalidThreshold),
{
}

/// Law: an org can be deactivated exactly when it is registered and
/// active; otherwise the refusal is `OrgNotFound` or `OrgInactive`.
pub proof fn lemma_deactivate_refusals(cfg: Option<OrgConfigView>)
    ensures
        deactivate_error(cfg) is None <==> (cfg is Some && cfg->Some_0.active),
        cfg is None ==> deactivate_error(cfg) == Some(Error::OrgNotFound),
        cfg matches Some(c) && !c.active ==> deactivate_error(cfg) == Some(Error::OrgInactive),
{
}

} // verus!
