//! The custody contract's storage, as one value, with its entry points.
use vstd::prelude::*;
use crate::account::{AccountId, AccountMap};
use crate::extender::errors::Error;
use crate::extender::rules::{
    balance_or_zero,
    seed_operator,
    charged,
    credited,
    debited,
    load_operator,
    rotate_operator,
    settle_deposit,
    settle_extension_cost,
    settle_withdrawal,
};
use crate::extender::types::{CostRecorded, Deposited, Operator, OperatorView, Withdrawn};

verus! {

/// What the custody contract has stored, as plain values: the operator
/// config, once initialized, and the prepaid balance (in stroops) of each
/// org that has one.
pub struct ExtenderState {
    pub operator: Option<OperatorView>,
    pub balances: Map<Seq<u8>, i128>,
}

impl ExtenderState {
    /// The org's prepaid balance: 0 when it was never funded.
    pub open spec fn balance_of(self, org: Seq<u8>) -> i128 {
        if self.balances.contains_key(org) {
            self.balances[org]
        } else {
            0
        }
    }

    /// No stored balance is negative.
    pub open spec fn valid(self) -> bool {
        forall|k: Seq<u8>| #[trigger] self.balances.contains_key(k) ==> self.balances[k] >= 0
    }

    /// The state with the org's balance set to `b`.
    pub open spec fn with_balance(self, org: Seq<u8>, b: i128) -> ExtenderState {
        ExtenderState { balances: self.balances.insert(org, b), ..self }
    }
}

/// The custody contract: holds per-org prepaid XLM balances and records the
/// extension costs that the off-chain keeper charges against them.
pub struct ExtenderContract {
    operator: Option<Operator>,
    balances: AccountMap<i128>,
}

impl View for ExtenderContract {
    type V = ExtenderState;

    closed spec fn view(&self) -> ExtenderState {
        ExtenderState {
            operator: match self.operator {
                Some(op) => Some(op@),
                None => None,
            },
            balances: self.balances@,
        }
    }
}

impl ExtenderContract {
    /// The storage is well formed, and no balance is negative.
    pub closed spec fn wf(&self) -> bool {
        &&& self.balances.wf()
        &&& self@.valid()
    }

    /// Law: no org's prepaid balance is ever negative.
    pub proof fn lemma_balances_never_negative(&self, org: Seq<u8>)
        requires
            self.wf(),
        ensures
            self@.valid(),
            self@.balance_of(org) >= 0,
    {
    }

    /// The storage of a freshly deployed contract: no operator, no balance.
    pub fn new() -> (c: ExtenderContract)
        ensures
            c.wf(),
            c@.operator is None,
            c@.balances == Map::<Seq<u8>, i128>::empty(),
    {
        ExtenderContract { operator: None, balances: AccountMap::new() }
    }

    /// Whether an operator is configured, i.e. `init` has run.
    pub fn is_initialized(&self) -> (r: bool)
        ensures
            r == self@.operator is Some,
    {
        self.operator.is_some()
    }

    /// Initializes the contract with the keeper (operator) address and the
    /// native XLM asset contract address of the network in use. Only one
    /// initialization is possible: `requires` leaves out a second one.
    pub fn init(&mut self, operator: AccountId, native_asset: AccountId)
        requires
            old(self).wf(),
            old(self)@.operator is None,
        ensures
            final(self).wf(),
            final(self)@ == (ExtenderState {
                operator: Some(OperatorView { operator: operator@, native_asset: native_asset@ }),
                balances: old(self)@.balances,
            }),
    {
        self.operator = seed_operator(self.operator.as_ref(), operator, native_asset);
    }

    /// The operator config, or [`Error::NotOperator`] when the contract has
    /// not been initialized.
    pub fn load_operator(&self) -> (r: Result<&Operator, Error>)
        ensures
            match self@.operator {
                Some(op) => r matches Ok(o) && o@ == op,
                None => r matches Err(e) && e == Error::NotOperator,
            },
    {
        load_operator(self.operator.as_ref())
    }

    /// The org's prepaid balance in stroops (0 when never funded).
    pub fn get_balance(&self, org: &AccountId) -> (r: i128)
        requires
            self.wf(),
        ensures
            r == self@.balance_of(org@),
    {
        let stored = match self.balances.get(org) {
            Some(b) => Some(*b),
            None => None,
        };
        balance_or_zero(stored)
    }

    /// Credits a deposit of `amount` stroops to the org's balance; the XLM
    /// itself moves into custody alongside. Refused when the contract is
    /// not initialized, when the amount is not positive, or when the
    /// balance would leave the range of `i128`; nothing changes then.
    pub fn deposit(&mut self, org: &AccountId, amount: i128) -> (r: Result<Deposited, Error>)
        requires
            old(self).wf(),
        ensures
            final(self).wf(),
            match credited(old(self)@.operator is Some, old(self)@.balance_of(org@), amount) {
                Ok(b) => r matches Ok(ev) && ev.org@ == org@ && ev.amount == amount && ev.balance
                    == b && final(self)@ == old(self)@.with_balance(org@, b),
                Err(e) => r matches Err(e2) && e2 == e && final(self)@ == old(self)@,
            },
    {
        let balance = self.get_balance(org);
        let ev = settle_deposit(self.operator.as_ref(), balance, org, amount)?;
        self.balances.insert(org.duplicate(), ev.balance);
        Ok(ev)
    }

    /// Debits a withdrawal of `amount` stroops from the org's balance; the
    /// XLM itself leaves custody alongside. Refused when the contract is
    /// not initialized, when the amount is not positive, or when the
    /// balance cannot cover it; nothing changes then.
    pub fn withdraw(&mut self, org: &AccountId, amount: i128) -> (r: Result<Withdrawn, Error>)
        requires
            old(self).wf(),
        ensures
            final(self).wf(),
            match debited(old(self)@.operator is Some, old(self)@.balance_of(org@), amount) {
                Ok(b) => r matches Ok(ev) && ev.org@ == org@ && ev.amount == amount && ev.balance
                    == b && final(self)@ == old(self)@.with_balance(org@, b),
                Err(e) => r matches Err(e2) && e2 == e && final(self)@ == old(self)@,
            },
    {
        let balance = self.get_balance(org);
        let ev = settle_withdrawal(self.operator.as_ref(), balance, org, amount)?;
        self.balances.insert(org.duplicate(), ev.balance);
        Ok(ev)
    }

    /// Records an extension cost that the keeper charges against the org.
    /// An org whose balance cannot cover the cost is not charged, and the
    /// call still succeeds, saying so. Refused when the contract is not
    /// initialized or the cost is not positive; nothing changes then.
    pub fn record_extension_cost(&mut self, org: &AccountId, cost: i128) -> (r: Result<
        CostRecorded,
        Error,
    >)
        requires
            old(self).wf(),
        ensures
            final(self).wf(),
            match charged(old(self)@.operator is Some, old(self)@.balance_of(org@), cost) {
                Ok(Some(b)) => r matches Ok(CostRecorded::Charged(ev)) && ev.org@ == org@ && ev.cost
                    == cost && ev.balance == b && final(self)@ == old(self)@.with_balance(org@, b),
                Ok(None) => r matches Ok(CostRecorded::Underfunded(ev)) && ev.org@ == org@
                    && ev.cost == cost && ev.balance == old(self)@.balance_of(org@) && final(self)@
                    == old(self)@,
                Err(e) => r matches Err(e2) && e2 == e && final(self)@ == old(self)@,
            },
    {
        let balance = self.get_balance(org);
        let outcome = settle_extension_cost(self.operator.as_ref(), balance, org, cost)?;
        if let CostRecorded::Charged(ev) = &outcome {
            self.balances.insert(org.duplicate(), ev.balance);
        }
        Ok(outcome)
    }

    /// Replaces the keeper address; the native asset address is kept.
    /// Refused with [`Error::NotOperator`] when the contract is not
    /// initialized; nothing changes then.
    pub fn set_operator(&mut self, new_operator: AccountId) -> (r: Result<(), Error>)
        requires
            old(self).wf(),
        ensures
            final(self).wf(),
            match old(self)@.operator {
                Some(op) => r is Ok && final(self)@ == (ExtenderState {
                    operator: Some(OperatorView { operator: new_operator@, ..op }),
                    ..old(self)@
                }),
                None => r matches Err(e) && e == Error::NotOperator && final(self)@ == old(self)@,
            },
    {
        let rotated = rotate_operator(self.operator.as_ref(), new_operator)?;
        self.operator = Some(rotated);
        Ok(())
    }
}

} // verus!
