//! The decisions of the custody contract, one per entry point, over the
//! storage cells that the entry point reads.
//!
//! Each function takes the cells as plain values (the operator config, if
//! one is stored, and the org's stored balance) and returns what is to be
//! written back and published. Auth checks and token transfers are done by
//! whoever runs the contract on a ledger.
use vstd::prelude::*;
use crate::account::AccountId;
use crate::extender::errors::Error;
use crate::extender::types::{
    CostRecorded,
    Deposited,
    ExtensionCharged,
    InsufficientBalance,
    Operator,
    OperatorView,
    Withdrawn,
};

verus! {

/// The org's balance after a deposit of `amount`, or why the deposit is
/// refused: no operator is configured, the amount is not positive, or the
/// balance would leave the range of `i128`.
pub open spec fn credited(configured: bool, balance: i128, amount: i128) -> Result<i128, Error> {
    if !configured {
        Err(Error::NotOperator)
    } else if amount <= 0 {
        Err(Error::InvalidAmount)
    } else if balance + amount > i128::MAX {
        Err(Error::InvalidAmount)
    } else {
        Ok((balance + amount) as i128)
    }
}

/// The org's balance after a withdrawal of `amount`, or why the withdrawal
/// is refused: no operator is configured, the amount is not positive, or
/// the balance cannot cover it.
pub open spec fn debited(configured: bool, balance: i128, amount: i128) -> Result<i128, Error> {
    if !configured {
        Err(Error::NotOperator)
    } else if amount <= 0 {
        Err(Error::InvalidAmount)
    } else if balance < amount {
        Err(Error::InsufficientBalance)
    } else {
        Ok((balance - amount) as i128)
    }
}

/// The org's balance after the keeper records an extension cost: `Some`
/// of the reduced balance when the balance covers the cost, `None` when it
/// does not (nothing is charged then); or why the cost is refused: no
/// operator is configured, or the cost is not positive.
pub open spec fn charged(configured: bool, balance: i128, cost: i128) -> Result<Option<i128>, Error> {
    if !configured {
        Err(Error::NotOperator)
    } else if cost <= 0 {
        Err(Error::InvalidAmount)
    } else if balance < cost {
        Ok(None)
    } else {
        Ok(Some((balance - cost) as i128))
    }
}

/// The configured operator, or [`Error::NotOperator`] when none is
/// configured, i.e. the contract has not been initialized.
pub fn load_operator(stored: Option<&Operator>) -> (r: Result<&Operator, Error>)
    ensures
        match stored {
            Some(op) => r == Ok::<&Operator, Error>(op),
            None => r == Err::<&Operator, Error>(Error::NotOperator),
        },
{
    match stored {
        Some(op) => Ok(op),
        None => Err(Error::NotOperator),
    }
}

/// Decides a deposit of `amount` by `org`, whose stored balance is
/// `balance`: on success, the event whose `balance` is the new balance.
pub fn settle_deposit(stored: Option<&Operator>, balance: i128, org: &AccountId, amount: i128) -> (r:
    Result<Deposited, Error>)
    ensures
        match credited(stored is Some, balance, amount) {
            Ok(b) => r matches Ok(ev) && ev.org@ == org@ && ev.amount == amount && ev.balance == b,
            Err(e) => r matches Err(e2) && e2 == e,
        },
{
    let _op = load_operator(stored)?;
    if amount <= 0 {
        return Err(Error::InvalidAmount);
    }
    match balance.checked_add(amount) {
        Some(b) => Ok(Deposited { org: org.duplicate(), amount, balance: b }),
        None => Err(Error::InvalidAmount),
    }
}

/// Decides a withdrawal of `amount` by `org`, whose stored balance is
/// `balance`: on success, the event whose `balance` is the new balance.
pub fn settle_withdrawal(stored: Option<&Operator>, balance: i128, org: &AccountId, amount: i128) -> (r:
    Result<Withdrawn, Error>)
    ensures
        match debited(stored is Some, balance, amount) {
            Ok(b) => r matches Ok(ev) && ev.org@ == org@ && ev.amount == amount && ev.balance == b,
            Err(e) => r matches Err(e2) && e2 == e,
        },
{
    let _op = load_operator(stored)?;
    if amount <= 0 {
        return Err(Error::InvalidAmount);
    }
    if balance < amount {
        return Err(Error::InsufficientBalance);
    }
    Ok(Withdrawn { org: org.duplicate(), amount, balance: balance - amount })
}

/// Decides the keeper's record of an extension cost against `org`, whose
/// stored balance is `balance`. An underfunded org is not an error: the
/// cost is then not charged, and the outcome says so.
pub fn settle_extension_cost(stored: Option<&Operator>, balance: i128, org: &AccountId, cost: i128) -> (r:
    Result<CostRecorded, Error>)
    ensures
        match charged(stored is Some, balance, cost) {
            Ok(Some(b)) => r matches Ok(CostRecorded::Charged(ev)) && ev.org@ == org@ && ev.cost
                == cost && ev.balance == b,
            Ok(None) => r matches Ok(CostRecorded::Underfunded(ev)) && ev.org@ == org@ && ev.cost
                == cost && ev.balance == balance,
            Err(e) => r matches Err(e2) && e2 == e,
        },
{
    let _op = load_operator(stored)?;
    if cost <= 0 {
        return Err(Error::InvalidAmount);
    }
    if balance < cost {
        Ok(CostRecorded::Underfunded(InsufficientBalance { org: org.duplicate(), cost, balance }))
    } else {
        Ok(
            CostRecorded::Charged(
                ExtensionCharged { org: org.duplicate(), cost, balance: balance - cost },
            ),
        )
    }
}

/// The operator config with `new_operator` as keeper and the stored native
/// asset address kept, or [`Error::NotOperator`] when none is configured.
pub fn rotate_operator(stored: Option<&Operator>, new_operator: AccountId) -> (r: Result<Operator, Error>)
    ensures
        match stored {
            Some(op) => r matches Ok(o) && o.operator@ == new_operator@ && o.native_asset@
                == op.native_asset@,
            None => r matches Err(e) && e == Error::NotOperator,
        },
{
    let op = load_operator(stored)?;
    Ok(Operator { operator: new_operator, native_asset: op.native_asset.duplicate() })
}

/// The entry points of the custody contract.
#[derive(Clone, Copy, Debug, PartialEq, Eq, Structural)]
pub enum EntryPoint {
    Init,
    Deposit,
    Withdraw,
    RecordExtensionCost,
    GetBalance,
    SetOperator,
}

/// Whose authorization an entry point needs.
#[derive(Clone, Copy, Debug, PartialEq, Eq, Structural)]
pub enum Signer {
    /// Anyone may call it.
    Nobody,
    /// The org named in the call must authorize it.
    Org,
    /// The stored operator (the keeper) must authorize it, not the org.
    Operator,
}

/// The authorization rule of the custody contract: an org authorizes its
/// own deposits and withdrawals; the stored operator authorizes charges and
/// its own replacement; `init` and balance reads need none.
pub open spec fn signer_of(call: EntryPoint) -> Signer {
    match call {
        EntryPoint::Init | EntryPoint::GetBalance => Signer::Nobody,
        EntryPoint::Deposit | EntryPoint::Withdraw => Signer::Org,
        EntryPoint::RecordExtensionCost | EntryPoint::SetOperator => Signer::Operator,
    }
}

/// Whose authorization `call` needs.
pub fn required_signer(call: EntryPoint) -> (r: Signer)
    ensures
        r == signer_of(call),
{
    match call {
        EntryPoint::Init | EntryPoint::GetBalance => Signer::Nobody,
        EntryPoint::Deposit | EntryPoint::Withdraw => Signer::Org,
        EntryPoint::RecordExtensionCost | EntryPoint::SetOperator => Signer::Operator,
    }
}

/// The address that must authorize a call signed by the operator: the
/// stored operator, or [`Error::NotOperator`] when none is configured.
pub fn operator_signer(stored: Option<&Operator>) -> (r: Result<&AccountId, Error>)
    ensures
        match stored {
            Some(op) => r matches Ok(a) && a == &op.operator,
            None => r matches Err(e) && e == Error::NotOperator,
        },
{
    let op = load_operator(stored)?;
    Ok(&op.operator)
}

/// Decides `init`, given the stored operator config: the config to be
/// written; or `None` when one is already stored, and `init` must then be
/// refused with a panic.
pub fn seed_operator(stored: Option<&Operator>, operator: AccountId, native_asset: AccountId) -> (r:
    Option<Operator>)
    ensures
        match stored {
            Some(_) => r is None,
            None => r matches Some(op) && op@ == (OperatorView {
                operator: operator@,
                native_asset: native_asset@,
            }),
        },
{
    match stored {
        Some(_) => None,
        None => Some(Operator { operator, native_asset }),
    }
}

/// The org's balance, given its stored balance cell: 0 when none is stored.
pub fn balance_or_zero(stored: Option<i128>) -> (r: i128)
    ensures
        r == match stored {
            Some(b) => b,
            None => 0i128,
        },
{
    match stored {
        Some(b) => b,
        None => 0,
    }
}

} // verus!
