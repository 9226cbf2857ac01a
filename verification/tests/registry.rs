use archguard::registry::rules::{
    plan_entry, plan_policy_update, plan_removal, read_entry, register, required_signer,
    seed_counter, watchable, EntryPoint, Signer,
};
use archguard::account::AccountId;
use archguard::registry::rules::without_id;
use archguard::registry::types::{Durability, WatchedEntry};
use archguard::registry::{Error, RegistryContract};

fn addr(strkey: &str) -> AccountId {
    AccountId::new(strkey.as_bytes().to_vec())
}

fn org() -> AccountId {
    addr("GORGAAAAAAAAAAAAAAAAAAAAAAAAAAAAAAAAAAAAAAAAAAAAAAAAAAAA")
}

fn admin() -> AccountId {
    addr("GADMINAAAAAAAAAAAAAAAAAAAAAAAAAAAAAAAAAAAAAAAAAAAAAAAAAA")
}

fn watched() -> AccountId {
    addr("CWATCHEDCONTRACTAAAAAAAAAAAAAAAAAAAAAAAAAAAAAAAAAAAAAAAA")
}

/// An initialized registry with `org` registered.
fn setup() -> RegistryContract {
    let mut r = RegistryContract::new();
    r.init();
    r.register_org(&org(), admin(), [7u8; 32]);
    r
}

fn add(r: &mut RegistryContract, who: &AccountId, threshold: u32, to: u32) -> Result<u64, Error> {
    r.add_watched_entry(
        who,
        watched(),
        Durability::Persistent,
        Some(b"balance".to_vec()),
        threshold,
        to,
        true,
        1_700_000_000,
    )
    .map(|ev| ev.entry_id)
}

fn ids(entries: &[WatchedEntry]) -> Vec<u64> {
    entries.iter().map(|e| e.id).collect()
}

#[test]
fn test_test_init() {
    let mut r = RegistryContract::new();
    assert!(!r.is_initialized());
    r.init();
    assert!(r.is_initialized());
}

#[test]
fn test_register_org() {
    let mut r = RegistryContract::new();
    r.init();
    let ev = r.register_org(&org(), admin(), [7u8; 32]);
    assert_eq!(ev.org.bytes, org().bytes);
    assert_eq!(ev.config.admin.bytes, admin().bytes);
    assert_eq!(ev.config.notify_webhook, [7u8; 32]);
    assert!(ev.config.active);
    assert!(r.is_registered(&org()));
}

#[test]
fn entry_ids_start_at_one_and_increase() {
    let mut r = setup();
    assert_eq!(add(&mut r, &org(), 17_280, 518_400), Ok(1));
    assert_eq!(add(&mut r, &org(), 10, 20), Ok(2));
    assert_eq!(add(&mut r, &org(), 10, 20), Ok(3));
}

#[test]
fn added_entry_reads_back() {
    let mut r = setup();
    let ev = r
        .add_watched_entry(&org(), watched(), Durability::Instance, None, 17_280, 518_400, true, 42)
        .unwrap();
    assert_eq!(ev.entry_id, 1);
    let e = r.get_entry(1).unwrap();
    assert_eq!(e.id, 1);
    assert_eq!(e.org.bytes, org().bytes);
    assert_eq!(e.contract_id.bytes, watched().bytes);
    assert_eq!(e.durability, Durability::Instance);
    assert!(e.key.is_none());
    assert_eq!(e.extend_threshold_ledgers, 17_280);
    assert_eq!(e.extend_to_ledgers, 518_400);
    assert!(e.auto_extend);
    assert_eq!(e.created_at, 42);
    assert_eq!(ev.entry.id, 1);
}

#[test]
fn add_errors() {
    let mut r = setup();
    assert_eq!(add(&mut r, &addr("GSTRANGER"), 1, 2), Err(Error::OrgNotFound));
    assert_eq!(add(&mut r, &org(), 5, 5), Err(Error::InvalidThreshold));
    assert_eq!(add(&mut r, &org(), 6, 5), Err(Error::InvalidThreshold));
    r.deactivate_org(&org()).unwrap();
    assert_eq!(add(&mut r, &org(), 1, 2), Err(Error::OrgInactive));
    assert!(r.get_org_entries(&org()).is_empty());
}

#[test]
fn org_entries_in_insertion_order() {
    let mut r = setup();
    let other = addr("GOTHERORG");
    r.register_org(&other, admin(), [1u8; 32]);
    add(&mut r, &org(), 1, 2).unwrap();
    add(&mut r, &other, 1, 2).unwrap();
    add(&mut r, &org(), 1, 2).unwrap();
    add(&mut r, &org(), 1, 2).unwrap();
    assert_eq!(ids(&r.get_org_entries(&org())), vec![1, 3, 4]);
    assert_eq!(ids(&r.get_org_entries(&other)), vec![2]);
    assert!(r.get_org_entries(&addr("GNOBODY")).is_empty());
}

#[test]
fn remove_drops_entry_and_id() {
    let mut r = setup();
    add(&mut r, &org(), 1, 2).unwrap();
    add(&mut r, &org(), 1, 2).unwrap();
    add(&mut r, &org(), 1, 2).unwrap();
    assert_eq!(r.remove_watched_entry(&org(), 2).unwrap().entry_id, 2);
    assert_eq!(r.get_entry(2).err(), Some(Error::EntryNotFound));
    assert_eq!(ids(&r.get_org_entries(&org())), vec![1, 3]);
    // Removed ids are not handed out again.
    assert_eq!(add(&mut r, &org(), 1, 2), Ok(4));
}

#[test]
fn remove_errors() {
    let mut r = setup();
    let other = addr("GOTHERORG");
    r.register_org(&other, admin(), [1u8; 32]);
    add(&mut r, &org(), 1, 2).unwrap();
    assert_eq!(r.remove_watched_entry(&addr("GSTRANGER"), 1), Err(Error::OrgNotFound));
    assert_eq!(r.remove_watched_entry(&org(), 9), Err(Error::EntryNotFound));
    assert_eq!(r.remove_watched_entry(&other, 1), Err(Error::NotEntryOwner));
    r.deactivate_org(&org()).unwrap();
    assert_eq!(r.remove_watched_entry(&org(), 1), Err(Error::OrgInactive));
    // Existing entries stay readable after deactivation.
    assert_eq!(r.get_entry(1).unwrap().id, 1);
    assert_eq!(ids(&r.get_org_entries(&org())), vec![1]);
}

#[test]
fn update_policy() {
    let mut r = setup();
    add(&mut r, &org(), 1, 2).unwrap();
    let ev = r.update_entry_policy(&org(), 1, 100, 200, false).unwrap();
    assert_eq!(ev.entry_id, 1);
    let e = r.get_entry(1).unwrap();
    assert_eq!(e.extend_threshold_ledgers, 100);
    assert_eq!(e.extend_to_ledgers, 200);
    assert!(!e.auto_extend);
    assert_eq!(e.key, Some(b"balance".to_vec()));
    assert_eq!(e.created_at, 1_700_000_000);
    assert_eq!(e.durability, Durability::Persistent);
}

#[test]
fn update_policy_errors() {
    let mut r = setup();
    let other = addr("GOTHERORG");
    r.register_org(&other, admin(), [1u8; 32]);
    add(&mut r, &org(), 1, 2).unwrap();
    assert!(matches!(r.update_entry_policy(&addr("GX"), 1, 1, 2, true), Err(Error::OrgNotFound)));
    assert!(matches!(r.update_entry_policy(&org(), 5, 1, 2, true), Err(Error::EntryNotFound)));
    assert!(matches!(r.update_entry_policy(&other, 1, 1, 2, true), Err(Error::NotEntryOwner)));
    assert!(matches!(r.update_entry_policy(&org(), 1, 3, 2, true), Err(Error::InvalidThreshold)));
    assert_eq!(r.get_entry(1).unwrap().extend_to_ledgers, 2);
    r.deactivate_org(&other).unwrap();
    assert!(matches!(r.update_entry_policy(&other, 1, 1, 2, true), Err(Error::OrgInactive)));
}

#[test]
fn deactivate_org() {
    let mut r = setup();
    assert_eq!(r.deactivate_org(&org()).unwrap().org.bytes, org().bytes);
    assert!(matches!(r.deactivate_org(&org()), Err(Error::OrgInactive)));
    assert!(matches!(r.deactivate_org(&addr("GX")), Err(Error::OrgNotFound)));
}

#[test]
fn get_entry_missing() {
    let r = setup();
    assert_eq!(r.get_entry(1).err(), Some(Error::EntryNotFound));
}

#[test]
fn registry_error_codes() {
    assert_eq!(Error::OrgNotFound.code(), 1);
    assert_eq!(Error::EntryNotFound.code(), 2);
    assert_eq!(Error::NotEntryOwner.code(), 3);
    assert_eq!(Error::OrgInactive.code(), 4);
    assert_eq!(Error::InvalidThreshold.code(), 5);
}

#[test]
fn without_id_keeps_order() {
    assert_eq!(without_id(&vec![1, 4, 9, 12], 9), vec![1, 4, 12]);
    assert_eq!(without_id(&vec![1, 4], 7), vec![1, 4]);
    assert_eq!(without_id(&vec![], 7), Vec::<u64>::new());
}

#[test]
fn registry_cell_decisions() {
    assert_eq!(seed_counter(None), Some(0));
    assert_eq!(seed_counter(Some(3)), None);

    let ev = register(None, &org(), admin(), [7u8; 32]).unwrap();
    assert!(ev.config.active);
    assert!(register(Some(&ev.config), &org(), admin(), [7u8; 32]).is_none());

    let ids = vec![2u64, 5];
    let plan = plan_entry(
        Some(&ev.config),
        Some(5),
        Some(&ids),
        &org(),
        watched(),
        Durability::Persistent,
        None,
        1,
        2,
        false,
        7,
    )
    .ok()
    .unwrap();
    assert_eq!(plan.entry.id, 6);
    assert_eq!(plan.next_entry_id, 6);
    assert_eq!(plan.org_entry_ids, vec![2, 5, 6]);
    assert_eq!(plan.entry.durability, Durability::Persistent);
    assert!(watchable(Durability::Instance));
    assert!(watchable(Durability::Persistent));
    assert!(!watchable(Durability::Temporary));

    let remaining =
        plan_removal(Some(&ev.config), Some(&plan.entry), Some(&plan.org_entry_ids), &org(), 5);
    assert_eq!(remaining, Ok(vec![2, 6]));
    assert_eq!(
        plan_removal(Some(&ev.config), None, Some(&ids), &org(), 5),
        Err(Error::EntryNotFound)
    );

    let updated = plan_policy_update(Some(&ev.config), Some(&plan.entry), &org(), 10, 20, true)
        .ok()
        .unwrap();
    assert_eq!(updated.extend_to_ledgers, 20);
    assert_eq!(updated.id, 6);
    assert!(read_entry(None).is_err());
    assert_eq!(read_entry(Some(&plan.entry)).ok().unwrap().id, 6);

    assert_eq!(required_signer(EntryPoint::Init), Signer::Nobody);
    assert_eq!(required_signer(EntryPoint::GetEntry), Signer::Nobody);
    assert_eq!(required_signer(EntryPoint::GetOrgEntries), Signer::Nobody);
    assert_eq!(required_signer(EntryPoint::RegisterOrg), Signer::Org);
    assert_eq!(required_signer(EntryPoint::AddWatchedEntry), Signer::Org);
    assert_eq!(required_signer(EntryPoint::RemoveWatchedEntry), Signer::Org);
    assert_eq!(required_signer(EntryPoint::UpdateEntryPolicy), Signer::Org);
    assert_eq!(required_signer(EntryPoint::DeactivateOrg), Signer::Org);
}

#[test]
fn counter_bound_is_readable() {
    let mut r = RegistryContract::new();
    assert!(r.can_add_entry());
    r.init();
    assert!(r.can_add_entry());
}
