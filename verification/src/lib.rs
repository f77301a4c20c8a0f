//! A single-asset collateralised lending ledger.
//!
//! Account holders deposit collateral, borrow against it and repay principal
//! plus interest to close their position. The crate holds the ledger's state,
//! the five actions that change it and the invariants those actions keep; each
//! function states what it returns and how it changes the ledger.

pub mod contract;
pub mod error;
pub mod laws;
pub mod math;
pub mod msg;
pub mod response;
pub mod state;
pub mod text;

pub use crate::error::ContractError;
pub use crate::math::Decimal;
pub use crate::response::{Attribute, Payout, Response};
pub use crate::state::{Collateral, Config, Ledger, LoanInfo};
pub use crate::contract::{
    borrow, deposit_collateral, execute, instantiate, repay_loan, update_interest_rate,
    withdraw_collateral,
};
pub use crate::msg::{ExecuteMsg, InstantiateMsg};
