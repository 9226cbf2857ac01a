use archguard::extender::rules::{
    balance_or_zero, operator_signer, required_signer, seed_operator, EntryPoint, Signer,
};
use archguard::account::AccountId;
use archguard::extender::rules::{
    load_operator, rotate_operator, settle_deposit, settle_extension_cost, settle_withdrawal,
};
use archguard::extender::types::{CostRecorded, Operator};
use archguard::extender::{Error, ExtenderContract};

fn addr(strkey: &str) -> AccountId {
    AccountId::new(strkey.as_bytes().to_vec())
}

fn operator() -> AccountId {
    addr("GOPERATORKEEPERAAAAAAAAAAAAAAAAAAAAAAAAAAAAAAAAAAAAAAAAA")
}

fn native() -> AccountId {
    addr("CNATIVEXLMASSETCONTRACTAAAAAAAAAAAAAAAAAAAAAAAAAAAAAAAAA")
}

fn org() -> AccountId {
    addr("GORGAAAAAAAAAAAAAAAAAAAAAAAAAAAAAAAAAAAAAAAAAAAAAAAAAAAA")
}

/// A deployed and initialized contract.
fn setup() -> ExtenderContract {
    let mut c = ExtenderContract::new();
    c.init(operator(), native());
    c
}

#[test]
fn test_init() {
    let mut c = ExtenderContract::new();
    assert!(!c.is_initialized());
    c.init(operator(), native());
    assert!(c.is_initialized());
    // An unfunded org reads back a balance of 0.
    assert_eq!(c.get_balance(&addr("GSOMEONEELSE")), 0);
    let op = c.load_operator().unwrap();
    assert_eq!(op.operator.bytes, operator().bytes);
    assert_eq!(op.native_asset.bytes, native().bytes);
}

#[test]
fn test_deposit() {
    let mut c = setup();
    let ev = c.deposit(&org(), 250_000).unwrap();
    assert_eq!(ev.org.bytes, org().bytes);
    assert_eq!(ev.amount, 250_000);
    assert_eq!(ev.balance, 250_000);
    assert_eq!(c.get_balance(&org()), 250_000);
}

#[test]
fn test_deposit_invalid_amount() {
    let mut c = setup();
    assert_eq!(c.deposit(&org(), 0).err(), Some(Error::InvalidAmount));
    assert_eq!(c.deposit(&org(), -5).err(), Some(Error::InvalidAmount));
    assert_eq!(c.get_balance(&org()), 0);
}

#[test]
fn test_deposit_not_initialized() {
    let mut c = ExtenderContract::new();
    assert_eq!(c.deposit(&addr("GANYONE"), 100).err(), Some(Error::NotOperator));
}

#[test]
fn test_withdraw() {
    let mut c = setup();
    c.deposit(&org(), 500_000).unwrap();
    let ev = c.withdraw(&org(), 200_000).unwrap();
    assert_eq!(ev.org.bytes, org().bytes);
    assert_eq!(ev.amount, 200_000);
    assert_eq!(ev.balance, 300_000);
    assert_eq!(c.get_balance(&org()), 300_000);
}

#[test]
fn test_withdraw_insufficient_balance() {
    let mut c = setup();
    c.deposit(&org(), 100_000).unwrap();
    assert_eq!(c.withdraw(&org(), 100_001).err(), Some(Error::InsufficientBalance));
    // Balance is unchanged and an unfunded org cannot withdraw at all.
    assert_eq!(c.get_balance(&org()), 100_000);
    assert_eq!(c.withdraw(&addr("GUNFUNDED"), 1).err(), Some(Error::InsufficientBalance));
}

#[test]
fn test_withdraw_invalid_amount() {
    let mut c = setup();
    assert_eq!(c.withdraw(&org(), 0).err(), Some(Error::InvalidAmount));
    assert_eq!(c.withdraw(&org(), -1).err(), Some(Error::InvalidAmount));
}

#[test]
fn test_record_extension_cost() {
    let mut c = setup();
    c.deposit(&org(), 500_000).unwrap();
    match c.record_extension_cost(&org(), 75_000).unwrap() {
        CostRecorded::Charged(ev) => {
            assert_eq!(ev.org.bytes, org().bytes);
            assert_eq!(ev.cost, 75_000);
            assert_eq!(ev.balance, 425_000);
        }
        CostRecorded::Underfunded(_) => panic!("the balance covers the cost"),
    }
    assert_eq!(c.get_balance(&org()), 425_000);
}

#[test]
fn test_record_extension_cost_insufficient_balance() {
    let mut c = setup();
    c.deposit(&org(), 100_000).unwrap();
    // Underfunded: no error, balance unchanged, insufficient_balance published.
    match c.record_extension_cost(&org(), 150_000).unwrap() {
        CostRecorded::Underfunded(ev) => {
            assert_eq!(ev.org.bytes, org().bytes);
            assert_eq!(ev.cost, 150_000);
            assert_eq!(ev.balance, 100_000);
        }
        CostRecorded::Charged(_) => panic!("the balance does not cover the cost"),
    }
    assert_eq!(c.get_balance(&org()), 100_000);
}

#[test]
fn test_record_extension_cost_invalid_amount() {
    let mut c = setup();
    c.deposit(&org(), 100_000).unwrap();
    assert!(matches!(c.record_extension_cost(&org(), -1), Err(Error::InvalidAmount)));
}

#[test]
fn test_record_extension_cost_not_initialized() {
    let mut c = ExtenderContract::new();
    assert!(matches!(c.record_extension_cost(&addr("GANYONE"), 100), Err(Error::NotOperator)));
}

#[test]
fn test_get_balance_defaults_to_zero() {
    let c = setup();
    assert_eq!(c.get_balance(&addr("GNEVERFUNDED")), 0);
}

#[test]
fn test_set_operator() {
    let mut c = setup();
    let before_native = c.load_operator().unwrap().native_asset.bytes.clone();
    let new_operator = addr("GNEWOPERATOR");
    c.set_operator(new_operator.duplicate()).unwrap();
    // The operator rotated; the injected native asset address is preserved.
    let after = c.load_operator().unwrap();
    assert_eq!(after.operator.bytes, new_operator.bytes);
    assert_eq!(after.native_asset.bytes, before_native);
}

#[test]
fn test_set_operator_not_initialized() {
    let mut c = ExtenderContract::new();
    assert_eq!(c.set_operator(addr("GANYONE")), Err(Error::NotOperator));
}

#[test]
fn deposit_then_withdraw_restores_balance() {
    let mut c = setup();
    c.deposit(&org(), 40).unwrap();
    c.deposit(&org(), 60).unwrap();
    c.withdraw(&org(), 60).unwrap();
    assert_eq!(c.get_balance(&org()), 40);
}

#[test]
fn balances_are_kept_per_org() {
    let mut c = setup();
    let other = addr("GOTHERORG");
    c.deposit(&org(), 1_000).unwrap();
    c.deposit(&other, 7).unwrap();
    c.record_extension_cost(&org(), 400).unwrap();
    assert_eq!(c.get_balance(&org()), 600);
    assert_eq!(c.get_balance(&other), 7);
}

#[test]
fn charge_of_whole_balance_empties_it() {
    let mut c = setup();
    c.deposit(&org(), 300).unwrap();
    assert!(matches!(
        c.record_extension_cost(&org(), 300),
        Ok(CostRecorded::Charged(ev)) if ev.balance == 0
    ));
    assert_eq!(c.get_balance(&org()), 0);
    assert!(matches!(
        c.record_extension_cost(&org(), 1),
        Ok(CostRecorded::Underfunded(ev)) if ev.balance == 0
    ));
}

#[test]
fn zero_cost_is_refused() {
    let mut c = setup();
    c.deposit(&org(), 300).unwrap();
    assert!(matches!(c.record_extension_cost(&org(), 0), Err(Error::InvalidAmount)));
    assert_eq!(c.get_balance(&org()), 300);
}

#[test]
fn deposit_overflowing_balance_is_refused() {
    let mut c = setup();
    c.deposit(&org(), i128::MAX).unwrap();
    assert_eq!(c.deposit(&org(), 1).err(), Some(Error::InvalidAmount));
    assert_eq!(c.get_balance(&org()), i128::MAX);
}

#[test]
fn withdraw_exact_balance() {
    let mut c = setup();
    c.deposit(&org(), 55).unwrap();
    assert_eq!(c.withdraw(&org(), 55).unwrap().balance, 0);
    assert_eq!(c.withdraw(&org(), 1).err(), Some(Error::InsufficientBalance));
}

#[test]
fn not_initialized_comes_before_amount_checks() {
    let mut c = ExtenderContract::new();
    assert_eq!(c.withdraw(&org(), -1).err(), Some(Error::NotOperator));
    assert_eq!(c.deposit(&org(), 0).err(), Some(Error::NotOperator));
}

#[test]
fn extender_error_codes() {
    assert_eq!(Error::InsufficientBalance.code(), 1);
    assert_eq!(Error::NotOperator.code(), 2);
    assert_eq!(Error::InvalidAmount.code(), 3);
}

#[test]
fn settle_functions_on_cells() {
    let op = Operator { operator: operator(), native_asset: native() };
    assert!(load_operator(None).is_err());
    assert_eq!(load_operator(Some(&op)).unwrap().operator.bytes, operator().bytes);
    assert_eq!(settle_deposit(Some(&op), 10, &org(), 5).unwrap().balance, 15);
    assert_eq!(settle_deposit(None, 10, &org(), 5).err(), Some(Error::NotOperator));
    assert_eq!(settle_withdrawal(Some(&op), 10, &org(), 4).unwrap().balance, 6);
    assert_eq!(settle_withdrawal(Some(&op), 3, &org(), 4).err(), Some(Error::InsufficientBalance));
    assert!(matches!(
        settle_extension_cost(Some(&op), 10, &org(), 4),
        Ok(CostRecorded::Charged(ev)) if ev.balance == 6 && ev.cost == 4
    ));
    let rotated = rotate_operator(Some(&op), addr("GROTATED")).unwrap();
    assert_eq!(rotated.operator.bytes, b"GROTATED".to_vec());
    assert_eq!(rotated.native_asset.bytes, native().bytes);
    assert!(rotate_operator(None, addr("GROTATED")).is_err());
}

#[test]
fn account_ids_compare_by_bytes() {
    assert!(addr("GABC").same_as(&addr("GABC")));
    assert!(!addr("GABC").same_as(&addr("GABD")));
    assert!(!addr("GABC").same_as(&addr("GABCD")));
    assert_eq!(addr("GABC").duplicate().bytes, b"GABC".to_vec());
}

#[test]
fn extender_cell_decisions() {
    let op = seed_operator(None, operator(), native()).unwrap();
    assert_eq!(op.operator.bytes, operator().bytes);
    assert!(seed_operator(Some(&op), addr("GX"), addr("CX")).is_none());
    assert_eq!(balance_or_zero(None), 0);
    assert_eq!(balance_or_zero(Some(12)), 12);
    assert_eq!(operator_signer(Some(&op)).unwrap().bytes, operator().bytes);
    assert!(operator_signer(None).is_err());
    assert_eq!(required_signer(EntryPoint::Init), Signer::Nobody);
    assert_eq!(required_signer(EntryPoint::GetBalance), Signer::Nobody);
    assert_eq!(required_signer(EntryPoint::Deposit), Signer::Org);
    assert_eq!(required_signer(EntryPoint::Withdraw), Signer::Org);
    assert_eq!(required_signer(EntryPoint::RecordExtensionCost), Signer::Operator);
    assert_eq!(required_signer(EntryPoint::SetOperator), Signer::Operator);
}
