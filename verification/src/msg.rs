//! The requests that the ledger accepts.

use vstd::prelude::*;
use crate::math::Decimal;

verus! {

/// What a ledger is created with.
#[derive(Clone, Debug, PartialEq, Eq)]
pub struct InstantiateMsg {
    pub owner: String,
    pub base_interest_rate: Decimal,
}

/// An action on the ledger, taken by the account that sends it.
#[derive(Clone, Debug, PartialEq, Eq)]
pub enum ExecuteMsg {
    /// Make `amount` of the token `token_address` the sender's collateral.
    DepositCollateral { token_address: String, amount: u128 },
    /// Take `amount` of the token `token_address` out of the sender's
    /// collateral.
    WithdrawCollateral { token_address: String, amount: u128 },
    /// Lend `amount` to the sender.
    Borrow { amount: u128 },
    /// Close the sender's loan with a payment of `amount`.
    RepayLoan { amount: u128 },
    /// Set the base rate to `new_rate`; for the owner only.
    UpdateInterestRate { new_rate: Decimal },
}

/// An `ExecuteMsg` as a mathematical value.
pub enum ExecuteMsgView {
    DepositCollateral { token_address: Seq<char>, amount: u128 },
    WithdrawCollateral { token_address: Seq<char>, amount: u128 },
    Borrow { amount: u128 },
    RepayLoan { amount: u128 },
    UpdateInterestRate { new_rate: Decimal },
}

impl ExecuteMsgView {
    /// The action asks to borrow nothing.
    pub open spec fn borrows_nothing(self) -> bool {
        self == (ExecuteMsgView::Borrow { amount: 0 })
    }
}

impl View for ExecuteMsg {
    type V = ExecuteMsgView;

    open spec fn view(&self) -> ExecuteMsgView {
        match *self {
            ExecuteMsg::DepositCollateral { token_address, amount } => {
                ExecuteMsgView::DepositCollateral { token_address: token_address@, amount }
            },
            ExecuteMsg::WithdrawCollateral { token_address, amount } => {
                ExecuteMsgView::WithdrawCollateral { token_address: token_address@, amount }
            },
            ExecuteMsg::Borrow { amount } => ExecuteMsgView::Borrow { amount },
            ExecuteMsg::RepayLoan { amount } => ExecuteMsgView::RepayLoan { amount },
            ExecuteMsg::UpdateInterestRate { new_rate } => {
                ExecuteMsgView::UpdateInterestRate { new_rate }
            },
        }
    }
}

} // verus!
