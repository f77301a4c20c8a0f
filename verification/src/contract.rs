//! The actions of the ledger.
//!
//! Each action is taken by one account, the sender, and reads and writes that
//! account's records only. An action either succeeds, changes the ledger and
//! hands back a response, or is rejected with an error and changes nothing.
//! What each action does is given by a function from the ledger before it to
//! its `Outcome`; the executable functions are proved to realise it.

use vstd::prelude::*;
use vstd::string::StringExecFns;
use crate::error::ContractError;
use crate::math::{checked_mul_floor, mul_floor, uint128_to_string, Decimal, DECIMAL_PERCENT};
use crate::msg::{ExecuteMsg, ExecuteMsgView, InstantiateMsg};
use crate::response::{Payout, PayoutView, Response, ResponseView};
use crate::text::{decimal_digits, decimal_text};
use crate::state::{Collateral, CollateralView, Config, ConfigView, Ledger, LedgerState, LoanInfo};

verus! {

/// The rate of every new loan, in percent. The configured base rate is kept
/// for administration and does not enter new loans.
pub const BORROW_RATE_PERCENT: u64 = 5;

/// What an action does to a ledger: the ledger after it and the response, or
/// the error with which it is rejected.
pub type Outcome = Result<(LedgerState, ResponseView), ContractError>;

/// `result`, together with the ledger before and after, is what `expected`
/// says: on success the new ledger and the response are the expected ones, on
/// rejection the error is the expected one and the ledger has not changed.
pub open spec fn realizes(
    before: LedgerState,
    after: LedgerState,
    result: Result<Response, ContractError>,
    expected: Outcome,
) -> bool {
    match expected {
        Ok((state, response)) => after == state && result is Ok && result->Ok_0@ == response,
        Err(e) => after == before && result is Err && result->Err_0 == e,
    }
}

/// The rate that a new loan is given.
pub open spec fn borrow_rate() -> Decimal {
    Decimal { atomics: (BORROW_RATE_PERCENT * DECIMAL_PERCENT) as u128 }
}

/// The currency in which payouts are made.
pub open spec fn payout_currency() -> Seq<char> {
    "usdc"@
}

impl LoanInfo {
    /// The interest on the loan: the principal times the loan's rate, rounded
    /// down.
    pub open spec fn interest_due(self) -> nat {
        mul_floor(self.amount_borrowed, self.interest_rate)
    }

    /// Principal plus interest.
    pub open spec fn total_due(self) -> nat {
        self.amount_borrowed as nat + self.interest_due()
    }

    /// The interest on the loan, or `Overflow` where it does not fit in 128
    /// bits.
    pub fn checked_interest(&self) -> (result: Result<u128, ContractError>)
        ensures
            match result {
                Ok(interest) => interest == self.interest_due(),
                Err(e) => e == ContractError::Overflow && self.interest_due() > u128::MAX,
            },
    {
        checked_mul_floor(self.amount_borrowed, self.interest_rate)
    }
}

/// The response to `instantiate`.
pub open spec fn instantiate_response() -> ResponseView {
    ResponseView::empty().with_attribute("method"@, "instantiate"@)
}

/// The response to a deposit of `amount`.
pub open spec fn deposit_response(amount: u128) -> ResponseView {
    ResponseView::empty().with_attribute("action"@, "deposit_collateral"@).with_attribute(
        "amount"@,
        decimal_digits(amount as nat),
    )
}

/// The response to a withdrawal of `amount` of the token `token_address`.
pub open spec fn withdraw_response(token_address: Seq<char>, amount: u128) -> ResponseView {
    ResponseView::empty().with_attribute("action"@, "withdraw_collateral"@).with_attribute(
        "amount"@,
        decimal_digits(amount as nat),
    ).with_attribute("token_address"@, token_address)
}

/// The response to a loan of `amount` to `sender`: the payout of the loan, and
/// the attributes.
pub open spec fn borrow_response(sender: Seq<char>, amount: u128) -> ResponseView {
    ResponseView::empty().with_payout(
        PayoutView { to: sender, amount, currency: payout_currency() },
    ).with_attribute("action"@, "borrow"@).with_attribute("amount"@, decimal_digits(amount as nat))
}

/// The response to a repayment of `amount`, of which `interest` was interest.
pub open spec fn repay_response(amount: u128, interest: nat) -> ResponseView {
    ResponseView::empty().with_attribute("action"@, "repay_loan"@).with_attribute(
        "amount"@,
        decimal_digits(amount as nat),
    ).with_attribute("interest_paid"@, decimal_digits(interest))
}

/// The response to a change of the base rate to `new_rate`.
pub open spec fn update_interest_rate_response(new_rate: Decimal) -> ResponseView {
    ResponseView::empty().with_attribute("action"@, "update_interest_rate"@).with_attribute(
        "new_rate"@,
        decimal_text(new_rate.atomics),
    )
}

/// A deposit of zero is rejected with `InvalidAmount`. Any other deposit makes
/// the deposited token and amount the sender's collateral record, in place of
/// any earlier one.
pub open spec fn deposit_collateral_outcome(
    state: LedgerState,
    sender: Seq<char>,
    token_address: Seq<char>,
    amount: u128,
) -> Outcome {
    if amount == 0 {
        Err(ContractError::InvalidAmount)
    } else {
        Ok(
            (
                state.with_collateral(sender, CollateralView { token_address, amount }),
                deposit_response(amount),
            ),
        )
    }
}

/// A withdrawal is rejected with `NotFound` where the sender has no collateral
/// record, and with `InvalidState` where the record is of another token or
/// holds less than `amount`. A withdrawal of the whole amount deletes the
/// record; a smaller one reduces its amount.
pub open spec fn withdraw_collateral_outcome(
    state: LedgerState,
    sender: Seq<char>,
    token_address: Seq<char>,
    amount: u128,
) -> Outcome {
    if !state.collaterals.contains_key(sender) {
        Err(ContractError::NotFound)
    } else {
        let stored = state.collaterals[sender];
        if stored.token_address != token_address || stored.amount < amount {
            Err(ContractError::InvalidState)
        } else if stored.amount == amount {
            Ok((state.without_collateral(sender), withdraw_response(token_address, amount)))
        } else {
            Ok(
                (
                    state.with_collateral(
                        sender,
                        CollateralView { token_address, amount: (stored.amount - amount) as u128 },
                    ),
                    withdraw_response(token_address, amount),
                ),
            )
        }
    }
}

/// A loan is always granted: it becomes the sender's loan record, in place of
/// any earlier one, at the fixed borrow rate and with `now` as its start, and
/// its amount is paid out to the sender.
pub open spec fn borrow_outcome(
    state: LedgerState,
    sender: Seq<char>,
    now: u64,
    amount: u128,
) -> Outcome {
    Ok(
        (
            state.with_loan(
                sender,
                LoanInfo {
                    amount_borrowed: amount,
                    interest_rate: borrow_rate(),
                    loan_start_time: now,
                },
            ),
            borrow_response(sender, amount),
        ),
    )
}

/// A repayment is rejected with `NotFound` where the sender has no loan, with
/// `Overflow` where principal plus interest does not fit in 128 bits, and with
/// `InsufficientPayment` where `amount` is less than principal plus interest.
/// Any other repayment deletes the loan record, whatever it exceeds the total
/// by.
pub open spec fn repay_loan_outcome(state: LedgerState, sender: Seq<char>, amount: u128) -> Outcome {
    if !state.loans.contains_key(sender) {
        Err(ContractError::NotFound)
    } else {
        let loan = state.loans[sender];
        if loan.total_due() > u128::MAX {
            Err(ContractError::Overflow)
        } else if amount < loan.total_due() {
            Err(ContractError::InsufficientPayment)
        } else {
            Ok((state.without_loan(sender), repay_response(amount, loan.interest_due())))
        }
    }
}

/// A change of the base rate is rejected with `Unauthorized` unless the sender
/// is the owner. Otherwise the configured base rate becomes `new_rate`; no
/// record changes.
pub open spec fn update_interest_rate_outcome(
    state: LedgerState,
    sender: Seq<char>,
    new_rate: Decimal,
) -> Outcome {
    if sender != state.config.owner {
        Err(ContractError::Unauthorized)
    } else {
        Ok(
            (
                state.with_config(
                    ConfigView { owner: state.config.owner, base_interest_rate: new_rate },
                ),
                update_interest_rate_response(new_rate),
            ),
        )
    }
}

/// What the action `msg`, sent by `sender` at the time `now`, does to `state`.
pub open spec fn execute_outcome(
    state: LedgerState,
    sender: Seq<char>,
    now: u64,
    msg: ExecuteMsgView,
) -> Outcome {
    match msg {
        ExecuteMsgView::DepositCollateral { token_address, amount } => {
            deposit_collateral_outcome(state, sender, token_address, amount)
        },
        ExecuteMsgView::WithdrawCollateral { token_address, amount } => {
            withdraw_collateral_outcome(state, sender, token_address, amount)
        },
        ExecuteMsgView::Borrow { amount } => borrow_outcome(state, sender, now, amount),
        ExecuteMsgView::RepayLoan { amount } => repay_loan_outcome(state, sender, amount),
        ExecuteMsgView::UpdateInterestRate { new_rate } => {
            update_interest_rate_outcome(state, sender, new_rate)
        },
    }
}

/// Creates the ledger: `msg` gives its owner and base rate, and it holds no
/// records.
pub fn instantiate(msg: InstantiateMsg) -> (created: (Ledger, Response))
    ensures
        created.0@ == LedgerState::new(
            ConfigView { owner: msg.owner@, base_interest_rate: msg.base_interest_rate },
        ),
        created.1@ == instantiate_response(),
        created.0@.collateral_positive(),
        created.0@.loans_positive(),
{
    let config = Config { owner: msg.owner, base_interest_rate: msg.base_interest_rate };
    let ledger = Ledger::new(config);
    let response = Response::new().add_attribute("method", String::from_str("instantiate"));
    (ledger, response)
}

/// Performs the action `msg` for the account `sender` at the time `now`.
///
/// Whatever the action and whether or not it is accepted, a ledger without a
/// collateral record of zero stays one; a ledger without a loan record of zero
/// stays one unless the action is a loan of nothing.
pub fn execute(ledger: &mut Ledger, sender: &str, now: u64, msg: ExecuteMsg) -> (result: Result<
    Response,
    ContractError,
>)
    ensures
        realizes(
            old(ledger)@,
            final(ledger)@,
            result,
            execute_outcome(old(ledger)@, sender@, now, msg@),
        ),
        old(ledger)@.collateral_positive() ==> final(ledger)@.collateral_positive(),
        old(ledger)@.loans_positive() && !msg@.borrows_nothing()
            ==> final(ledger)@.loans_positive(),
{
    match msg {
        ExecuteMsg::DepositCollateral { token_address, amount } => {
            deposit_collateral(ledger, sender, token_address, amount)
        },
        ExecuteMsg::WithdrawCollateral { token_address, amount } => {
            withdraw_collateral(ledger, sender, token_address, amount)
        },
        ExecuteMsg::Borrow { amount } => borrow(ledger, sender, now, amount),
        ExecuteMsg::RepayLoan { amount } => repay_loan(ledger, sender, amount),
        ExecuteMsg::UpdateInterestRate { new_rate } => {
            update_interest_rate(ledger, sender, new_rate)
        },
    }
}

/// Deposits `amount` of the token `token_address` as the sender's collateral.
pub fn deposit_collateral(
    ledger: &mut Ledger,
    sender: &str,
    token_address: String,
    amount: u128,
) -> (result: Result<Response, ContractError>)
    ensures
        realizes(
            old(ledger)@,
            final(ledger)@,
            result,
            deposit_collateral_outcome(old(ledger)@, sender@, token_address@, amount),
        ),
{
    if amount == 0 {
        return Err(ContractError::InvalidAmount);
    }
    let collateral = Collateral { token_address, amount };
    ledger.save_collateral(sender, collateral);
    Ok(
        Response::new().add_attribute(
            "action",
            String::from_str("deposit_collateral"),
        ).add_attribute("amount", uint128_to_string(amount)),
    )
}

/// Withdraws `amount` of the token `token_address` from the sender's
/// collateral.
pub fn withdraw_collateral(
    ledger: &mut Ledger,
    sender: &str,
    token_address: String,
    amount: u128,
) -> (result: Result<Response, ContractError>)
    ensures
        realizes(
            old(ledger)@,
            final(ledger)@,
            result,
            withdraw_collateral_outcome(old(ledger)@, sender@, token_address@, amount),
        ),
{
    let collateral = match ledger.load_collateral(sender) {
        Ok(collateral) => collateral,
        Err(e) => {
            return Err(e);
        },
    };
    if !(collateral.token_address == token_address) || collateral.amount < amount {
        return Err(ContractError::InvalidState);
    }
    if collateral.amount == amount {
        ledger.remove_collateral(sender);
    } else {
        let updated = Collateral {
            token_address: collateral.token_address,
            amount: collateral.amount - amount,
        };
        ledger.save_collateral(sender, updated);
    }
    Ok(
        Response::new().add_attribute(
            "action",
            String::from_str("withdraw_collateral"),
        ).add_attribute("amount", uint128_to_string(amount)).add_attribute(
            "token_address",
            token_address,
        ),
    )
}

/// Grants the sender a loan of `amount` and asks for its payout.
pub fn borrow(ledger: &mut Ledger, sender: &str, now: u64, amount: u128) -> (result: Result<
    Response,
    ContractError,
>)
    ensures
        realizes(
            old(ledger)@,
            final(ledger)@,
            result,
            borrow_outcome(old(ledger)@, sender@, now, amount),
        ),
{
    let loan = LoanInfo {
        amount_borrowed: amount,
        interest_rate: Decimal::percent(BORROW_RATE_PERCENT),
        loan_start_time: now,
    };
    ledger.save_loan(sender, loan);
    let payout = Payout { to: sender.to_owned(), amount, currency: String::from_str("usdc") };
    Ok(
        Response::new().add_payout(payout).add_attribute(
            "action",
            String::from_str("borrow"),
        ).add_attribute("amount", uint128_to_string(amount)),
    )
}

/// Repays the sender's loan in full with a payment of `amount`.
pub fn repay_loan(ledger: &mut Ledger, sender: &str, amount: u128) -> (result: Result<
    Response,
    ContractError,
>)
    ensures
        realizes(
            old(ledger)@,
            final(ledger)@,
            result,
            repay_loan_outcome(old(ledger)@, sender@, amount),
        ),
{
    let loan = match ledger.load_loan(sender) {
        Ok(loan) => loan,
        Err(e) => {
            return Err(e);
        },
    };
    let interest = match loan.checked_interest() {
        Ok(interest) => interest,
        Err(e) => {
            return Err(e);
        },
    };
    let total_due = match loan.amount_borrowed.checked_add(interest) {
        Some(total_due) => total_due,
        None => {
            return Err(ContractError::Overflow);
        },
    };
    if amount < total_due {
        return Err(ContractError::InsufficientPayment);
    }
    ledger.remove_loan(sender);
    Ok(
        Response::new().add_attribute("action", String::from_str("repay_loan")).add_attribute(
            "amount",
            uint128_to_string(amount),
        ).add_attribute("interest_paid", uint128_to_string(interest)),
    )
}

/// Sets the base rate to `new_rate`, for the owner only.
pub fn update_interest_rate(ledger: &mut Ledger, sender: &str, new_rate: Decimal) -> (result:
    Result<Response, ContractError>)
    ensures
        realizes(
            old(ledger)@,
            final(ledger)@,
            result,
            update_interest_rate_outcome(old(ledger)@, sender@, new_rate),
        ),
{
    let owner = ledger.load_config().owner.clone();
    if !(sender.to_owned() == owner) {
        return Err(ContractError::Unauthorized);
    }
    ledger.save_config(Config { owner, base_interest_rate: new_rate });
    Ok(
        Response::new().add_attribute(
            "action",
            String::from_str("update_interest_rate"),
        ).add_attribute("new_rate", new_rate.to_string()),
    )
}

} // verus!
