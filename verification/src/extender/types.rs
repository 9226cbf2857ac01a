//! Data held and published by the custody contract.
use vstd::prelude::*;
use crate::account::AccountId;

verus! {

/// Operator (keeper) configuration: the keeper address authorized to charge
/// extension costs, and the native XLM asset contract address of the network
/// in use, which is injected at init time rather than hardcoded.
pub struct Operator {
    /// The keeper address authorized to charge extension costs.
    pub operator: AccountId,
    /// The native XLM asset contract address for the network in use.
    pub native_asset: AccountId,
}

/// What an [`Operator`] holds, as plain values.
pub struct OperatorView {
    pub operator: Seq<u8>,
    pub native_asset: Seq<u8>,
}

impl View for Operator {
    type V = OperatorView;

    open spec fn view(&self) -> OperatorView {
        OperatorView { operator: self.operator@, native_asset: self.native_asset@ }
    }
}

impl Operator {
    /// A copy of this configuration.
    pub fn duplicate(&self) -> (r: Operator)
        ensures
            r@ == self@,
    {
        Operator { operator: self.operator.duplicate(), native_asset: self.native_asset.duplicate() }
    }
}

/// Published when an org deposits XLM. Topics: `["deposited", org]`.
pub struct Deposited {
    pub org: AccountId,
    pub amount: i128,
    /// The org's balance after the deposit.
    pub balance: i128,
}

/// Published when an org withdraws XLM. Topics: `["withdrawn", org]`.
pub struct Withdrawn {
    pub org: AccountId,
    pub amount: i128,
    /// The org's balance after the withdrawal.
    pub balance: i128,
}

/// Published when the keeper charges an extension cost.
/// Topics: `["extension_charged", org]`.
pub struct ExtensionCharged {
    pub org: AccountId,
    pub cost: i128,
    /// The org's balance after the charge.
    pub balance: i128,
}

/// Published when the keeper records a cost that the org's balance cannot
/// cover. Topics: `["insufficient_balance", org]`.
pub struct InsufficientBalance {
    pub org: AccountId,
    pub cost: i128,
    /// The org's balance, which the recorded cost left unchanged.
    pub balance: i128,
}

/// What recording an extension cost did: either the cost was charged, or
/// the org was underfunded and nothing was charged.
pub enum CostRecorded {
    Charged(ExtensionCharged),
    Underfunded(InsufficientBalance),
}

} // verus!
