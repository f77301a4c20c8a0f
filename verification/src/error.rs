//! The ways in which an action can be rejected.

use vstd::prelude::*;
use vstd::string::StringExecFns;

verus! {

/// Why an action was rejected. A rejected action leaves the ledger unchanged.
#[derive(Clone, Copy, Debug, PartialEq, Eq, Structural)]
pub enum ContractError {
    /// A quantity of zero where a positive one is needed.
    InvalidAmount,
    /// The account has no such record.
    NotFound,
    /// The stored collateral is of another token or smaller than requested.
    InvalidState,
    /// The repayment does not cover principal and interest.
    InsufficientPayment,
    /// The caller is not the owner.
    Unauthorized,
    /// A monetary computation left the range of 128-bit amounts.
    Overflow,
}

impl ContractError {
    /// The text of `message`.
    pub open spec fn message_text(self) -> Seq<char> {
        match self {
            ContractError::InvalidAmount => "Amount cannot be zero"@,
            ContractError::NotFound => "Record not found"@,
            ContractError::InvalidState => "Insufficient collateral or mismatched token address"@,
            ContractError::InsufficientPayment =>
                "Repayment amount is not enough to cover the loan and interest"@,
            ContractError::Unauthorized => "You have no permissions."@,
            ContractError::Overflow => "Arithmetic overflow"@,
        }
    }

    /// A human-readable description of the error.
    pub fn message(&self) -> (text: String)
        ensures
            text@ == self.message_text(),
    {
        match self {
            ContractError::InvalidAmount => String::from_str("Amount cannot be zero"),
            ContractError::NotFound => String::from_str("Record not found"),
            ContractError::InvalidState => String::from_str(
                "Insufficient collateral or mismatched token address",
            ),
            ContractError::InsufficientPayment => String::from_str(
                "Repayment amount is not enough to cover the loan and interest",
            ),
            ContractError::Unauthorized => String::from_str("You have no permissions."),
            ContractError::Overflow => String::from_str("Arithmetic overflow"),
        }
    }
}

} // verus!
