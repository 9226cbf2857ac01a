//! Laws of the custody contract that relate its entry points.
use vstd::prelude::*;
use crate::extender::contract::ExtenderState;
use crate::extender::rules::{charged, credited, debited};
use crate::extender::errors::Error;
use crate::extender::types::OperatorView;

verus! {

/// Law: withdrawing what was just deposited gives back the balance that
/// the org had before (a stored balance is never negative).
pub proof fn lemma_withdraw_undoes_deposit(configured: bool, balance: i128, amount: i128)
    requires
        balance >= 0,
        credited(configured, balance, amount) is Ok,
    ensures
        debited(configured, credited(configured, balance, amount)->Ok_0, amount) == Ok::<
            i128,
            Error,
        >(balance),
{
}

/// Law: a charged extension cost lowers the balance exactly as a
/// withdrawal of the same amount would; an uncharged one is exactly a cost
/// that the balance cannot cover.
pub proof fn lemma_charge_is_debit(configured: bool, balance: i128, cost: i128)
    ensures
        charged(configured, balance, cost) matches Ok(Some(b)) ==> debited(
            configured,
            balance,
            cost,
        ) == Ok::<i128, Error>(b),
        charged(configured, balance, cost) matches Ok(None) ==> debited(
            configured,
            balance,
            cost,
        ) == Err::<i128, Error>(
            Error::InsufficientBalance,
        ),
{
}

/// Law: changing one org's balance leaves every other org's balance as it
/// was.
pub proof fn lemma_other_orgs_untouched(s: ExtenderState, org: Seq<u8>, b: i128, other: Seq<u8>)
    requires
        other != org,
    ensures
        s.with_balance(org, b).balance_of(other) == s.balance_of(other),
        s.with_balance(org, b).balance_of(org) == b,
{
}

/// Law: once `init` has stored an operator, every later `init` is refused.
/// No entry point removes the operator config: balance changes keep it, and
/// `set_operator` replaces it with another; on a stored config the init
/// decision (`seed_operator`) refuses.
pub proof fn lemma_init_only_once(s: ExtenderState, org: Seq<u8>, b: i128, new_operator: Seq<u8>)
    requires
        s.operator is Some,
    ensures
        s.with_balance(org, b).operator == s.operator,
        (ExtenderState {
            operator: Some(OperatorView { operator: new_operator, ..s.operator->Some_0 }),
            ..s
        }).operator is Some,
{
}

/// Law: what a deposit does. On an initialized contract, a positive amount
/// that keeps the balance within `i128` is always credited, and the new
/// balance is the old one plus the amount. The only refusals are: no
/// operator configured (`NotOperator`), a non-positive amount, or a balance
/// that would leave `i128` (`InvalidAmount`).
pub proof fn lemma_deposit_rule(configured: bool, balance: i128, amount: i128)
    ensures
        credited(configured, balance, amount) is Ok <==> (configured && amount > 0 && balance
            + amount <= i128::MAX),
        configured && amount > 0 && balance + amount <= i128::MAX ==> credited(
            configured,
            balance,
            amount,
        ) == Ok::<i128, Error>((balance + amount) as i128),
        !configured ==> credited(configured, balance, amount) == Err::<i128, Error>(
            Error::NotOperator,
        ),
        configured && (amount <= 0 || balance + amount > i128::MAX) ==> credited(
            configured,
            balance,
            amount,
        ) == Err::<i128, Error>(Error::InvalidAmount),
{
}

/// Law: what a withdrawal does. On an initialized contract, a positive
/// amount that the balance covers is always debited, and the new balance
/// is the old one minus the amount. The only refusals are: no operator
/// configured (`NotOperator`), a non-positive amount (`InvalidAmount`), or
/// an amount above the balance (`InsufficientBalance`).
pub proof fn lemma_withdraw_rule(configured: bool, balance: i128, amount: i128)
    ensures
        debited(configured, balance, amount) is Ok <==> (configured && 0 < amount <= balance),
        configured && 0 < amount <= balance ==> debited(configured, balance, amount) == Ok::<
            i128,
            Error,
        >((balance - amount) as i128),
        !configured ==> debited(configured, balance, amount) == Err::<i128, Error>(
            Error::NotOperator,
        ),
        configured && amount <= 0 ==> debited(configured, balance, amount) == Err::<i128, Error>(
            Error::InvalidAmount,
        ),
        configured && 0 < amount && balance < amount ==> debited(configured, balance, amount)
            == Err::<i128, Error>(Error::InsufficientBalance),
{
}

/// Law: what recording an extension cost does. On an initialized contract
/// a positive cost that the balance covers is always charged, leaving the
/// old balance minus the cost; a positive cost above the balance is never
/// an error and charges nothing. The only refusals are: no operator
/// configured (`NotOperator`) or a non-positive cost (`InvalidAmount`).
pub proof fn lemma_charge_rule(configured: bool, balance: i128, cost: i128)
    ensures
        charged(configured, balance, cost) is Err <==> (!configured || cost <= 0),
        configured && 0 < cost <= balance ==> charged(configured, balance, cost) == Ok::<
            Option<i128>,
            Error,
        >(Some((balance - cost) as i128)),
        configured && 0 < cost && balance < cost ==> charged(configured, balance, cost) == Ok::<
            Option<i128>,
            Error,
        >(None),
        !configured ==> charged(configured, balance, cost) == Err::<Option<i128>, Error>(
            Error::NotOperator,
        ),
        configured && cost <= 0 ==> charged(configured, balance, cost) == Err::<
            Option<i128>,
            Error,
        >(Error::InvalidAmount),
{
}

} // verus!
