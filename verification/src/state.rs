//! The ledger's records and the store that keeps them.
//!
//! The store keeps one configuration, at most one collateral record and at
//! most one loan record per account. Its mathematical model is `LedgerState`:
//! the configuration and two maps keyed by the account's name.

use vstd::prelude::*;
use vstd::hash_map::StringHashMap;
use crate::error::ContractError;
use crate::math::Decimal;

verus! {

/// Who administers the ledger, and the base interest rate.
#[derive(Clone, Debug, PartialEq, Eq)]
pub struct Config {
    pub owner: String,
    pub base_interest_rate: Decimal,
}

/// A `Config` as a mathematical value.
pub struct ConfigView {
    pub owner: Seq<char>,
    pub base_interest_rate: Decimal,
}

impl View for Config {
    type V = ConfigView;

    open spec fn view(&self) -> ConfigView {
        ConfigView { owner: self.owner@, base_interest_rate: self.base_interest_rate }
    }
}

/// An account's loan: the principal, the rate fixed when it was taken, and the
/// time at which it was taken.
#[derive(Clone, Copy, Debug, PartialEq, Eq, Structural)]
pub struct LoanInfo {
    pub amount_borrowed: u128,
    pub interest_rate: Decimal,
    pub loan_start_time: u64,
}

/// An account's collateral: which token, and how much of it.
#[derive(Clone, Debug, PartialEq, Eq)]
pub struct Collateral {
    pub token_address: String,
    pub amount: u128,
}

/// A `Collateral` as a mathematical value.
pub struct CollateralView {
    pub token_address: Seq<char>,
    pub amount: u128,
}

impl View for Collateral {
    type V = CollateralView;

    open spec fn view(&self) -> CollateralView {
        CollateralView { token_address: self.token_address@, amount: self.amount }
    }
}

/// The ledger as a mathematical value.
pub struct LedgerState {
    pub config: ConfigView,
    pub collaterals: Map<Seq<char>, CollateralView>,
    pub loans: Map<Seq<char>, LoanInfo>,
}

impl LedgerState {
    /// The ledger with the given configuration and no records.
    pub open spec fn new(config: ConfigView) -> LedgerState {
        LedgerState { config, collaterals: Map::empty(), loans: Map::empty() }
    }

    /// This ledger with another configuration.
    pub open spec fn with_config(self, config: ConfigView) -> LedgerState {
        LedgerState { config, ..self }
    }

    /// This ledger with `collateral` as the record of `account`, in place of
    /// any earlier one.
    pub open spec fn with_collateral(
        self,
        account: Seq<char>,
        collateral: CollateralView,
    ) -> LedgerState {
        LedgerState { collaterals: self.collaterals.insert(account, collateral), ..self }
    }

    /// This ledger without a collateral record of `account`.
    pub open spec fn without_collateral(self, account: Seq<char>) -> LedgerState {
        LedgerState { collaterals: self.collaterals.remove(account), ..self }
    }

    /// This ledger with `loan` as the record of `account`, in place of any
    /// earlier one.
    pub open spec fn with_loan(self, account: Seq<char>, loan: LoanInfo) -> LedgerState {
        LedgerState { loans: self.loans.insert(account, loan), ..self }
    }

    /// This ledger without a loan record of `account`.
    pub open spec fn without_loan(self, account: Seq<char>) -> LedgerState {
        LedgerState { loans: self.loans.remove(account), ..self }
    }

    /// How much collateral `account` holds: the amount of its record, and
    /// nothing where it has none.
    pub open spec fn collateral_amount(self, account: Seq<char>) -> nat {
        if self.collaterals.contains_key(account) {
            self.collaterals[account].amount as nat
        } else {
            0
        }
    }

    /// How much `account` has borrowed and not repaid: the principal of its
    /// loan record, and nothing where it has none.
    pub open spec fn borrowed_amount(self, account: Seq<char>) -> nat {
        if self.loans.contains_key(account) {
            self.loans[account].amount_borrowed as nat
        } else {
            0
        }
    }

    /// No collateral record holds an amount of zero.
    pub open spec fn collateral_positive(self) -> bool {
        forall|account: Seq<char>| #[trigger]
            self.collaterals.contains_key(account) ==> self.collaterals[account].amount > 0
    }

    /// No loan record holds a principal of zero.
    pub open spec fn loans_positive(self) -> bool {
        forall|account: Seq<char>| #[trigger]
            self.loans.contains_key(account) ==> self.loans[account].amount_borrowed > 0
    }
}

/// The store of the ledger's records. It keeps them in memory; to make them
/// last is left to the caller.
pub struct Ledger {
    config: Config,
    collaterals: StringHashMap<Collateral>,
    loans: StringHashMap<LoanInfo>,
}

impl View for Ledger {
    type V = LedgerState;

    closed spec fn view(&self) -> LedgerState {
        LedgerState {
            config: self.config@,
            collaterals: self.collaterals@.map_values(|c: Collateral| c@),
            loans: self.loans@,
        }
    }
}

impl Ledger {
    /// A store that holds `config` and no records.
    pub fn new(config: Config) -> (ledger: Ledger)
        ensures
            ledger@ == LedgerState::new(config@),
    {
        let ledger = Ledger { config, collaterals: StringHashMap::new(), loans: StringHashMap::new() };
        assert(ledger@.collaterals =~= Map::empty());
        ledger
    }

    /// The configuration.
    pub fn load_config(&self) -> (config: &Config)
        ensures
            config@ == self@.config,
    {
        &self.config
    }

    /// Replaces the configuration.
    pub fn save_config(&mut self, config: Config)
        ensures
            final(self)@ == old(self)@.with_config(config@),
    {
        self.config = config;
    }

    /// The collateral record of `account`, or `NotFound` where it has none.
    pub fn load_collateral(&self, account: &str) -> (result: Result<Collateral, ContractError>)
        ensures
            match result {
                Ok(collateral) => self@.collaterals.contains_key(account@) && collateral@
                    == self@.collaterals[account@],
                Err(e) => e == ContractError::NotFound && !self@.collaterals.contains_key(
                    account@,
                ),
            },
    {
        match self.collaterals.get(account) {
            Some(stored) => Ok(
                Collateral { token_address: stored.token_address.clone(), amount: stored.amount },
            ),
            None => Err(ContractError::NotFound),
        }
    }

    /// Makes `collateral` the record of `account`, in place of any earlier one.
    pub fn save_collateral(&mut self, account: &str, collateral: Collateral)
        ensures
            final(self)@ == old(self)@.with_collateral(account@, collateral@),
    {
        self.collaterals.insert(account.to_owned(), collateral);
        assert(final(self)@.collaterals =~= old(self)@.collaterals.insert(account@, collateral@));
    }

    /// Deletes the collateral record of `account`, if there is one.
    pub fn remove_collateral(&mut self, account: &str)
        ensures
            final(self)@ == old(self)@.without_collateral(account@),
    {
        self.collaterals.remove(account);
        assert(final(self)@.collaterals =~= old(self)@.collaterals.remove(account@));
    }

    /// The loan record of `account`, or `NotFound` where it has none.
    pub fn load_loan(&self, account: &str) -> (result: Result<LoanInfo, ContractError>)
        ensures
            match result {
                Ok(loan) => self@.loans.contains_key(account@) && loan == self@.loans[account@],
                Err(e) => e == ContractError::NotFound && !self@.loans.contains_key(account@),
            },
    {
        match self.loans.get(account) {
            Some(stored) => Ok(*stored),
            None => Err(ContractError::NotFound),
        }
    }

    /// Makes `loan` the record of `account`, in place of any earlier one.
    pub fn save_loan(&mut self, account: &str, loan: LoanInfo)
        ensures
            final(self)@ == old(self)@.with_loan(account@, loan),
    {
        self.loans.insert(account.to_owned(), loan);
    }

    /// Deletes the loan record of `account`, if there is one.
    pub fn remove_loan(&mut self, account: &str)
        ensures
            final(self)@ == old(self)@.without_loan(account@),
    {
        self.loans.remove(account);
    }
}

} // verus!
