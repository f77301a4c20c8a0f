//! What holds of the ledger whatever actions are taken.
//!
//! The lemmas speak of `execute_outcome`, which every action is proved to
//! realise, and of the ledger's mathematical state.

use vstd::prelude::*;
use crate::contract::{
    borrow_outcome, borrow_rate, deposit_collateral_outcome, execute_outcome, repay_loan_outcome,
    repay_response, update_interest_rate_outcome, withdraw_collateral_outcome,
};
use crate::error::ContractError;
use crate::math::{mul_floor, Decimal};
use crate::msg::ExecuteMsgView;
use crate::state::{CollateralView, ConfigView, LedgerState, LoanInfo};

verus! {

/// One action as it reaches the ledger: who sends it, when, and what it asks.
pub struct Call {
    pub sender: Seq<char>,
    pub now: u64,
    pub msg: ExecuteMsgView,
}

/// The ledger after `call`: changed as the action says where it succeeds,
/// unchanged where it is rejected.
pub open spec fn after(state: LedgerState, call: Call) -> LedgerState {
    match execute_outcome(state, call.sender, call.now, call.msg) {
        Ok((next, _)) => next,
        Err(_) => state,
    }
}

/// The ledger after all of `calls`, in their order.
pub open spec fn after_all(state: LedgerState, calls: Seq<Call>) -> LedgerState
    decreases calls.len(),
{
    if calls.len() == 0 {
        state
    } else {
        after(after_all(state, calls.drop_last()), calls.last())
    }
}

/// A ledger that has just been created holds no record, so no record of it
/// holds a zero.
pub proof fn new_ledger_is_positive(config: ConfigView)
    ensures
        LedgerState::new(config).collateral_positive(),
        LedgerState::new(config).loans_positive(),
{
}

/// Where no collateral record holds a zero, an account has a collateral record
/// if and only if it holds collateral.
pub proof fn collateral_record_iff_amount(state: LedgerState, account: Seq<char>)
    requires
        state.collateral_positive(),
    ensures
        state.collaterals.contains_key(account) <==> state.collateral_amount(account) > 0,
{
}

/// Where no loan record holds a zero, an account has a loan record if and only
/// if it has borrowed an amount that it has not repaid.
pub proof fn loan_record_iff_amount(state: LedgerState, account: Seq<char>)
    requires
        state.loans_positive(),
    ensures
        state.loans.contains_key(account) <==> state.borrowed_amount(account) > 0,
{
}

/// No action, accepted or rejected, leaves a collateral record that holds a
/// zero.
pub proof fn action_keeps_collateral_positive(state: LedgerState, call: Call)
    requires
        state.collateral_positive(),
    ensures
        after(state, call).collateral_positive(),
{
}

/// No action but a loan of nothing leaves a loan record that holds a zero.
pub proof fn action_keeps_loans_positive(state: LedgerState, call: Call)
    requires
        state.loans_positive(),
        !call.msg.borrows_nothing(),
    ensures
        after(state, call).loans_positive(),
{
}

/// After any sequence of actions on a new ledger, no collateral record holds a
/// zero.
pub proof fn collateral_positive_always(config: ConfigView, calls: Seq<Call>)
    ensures
        after_all(LedgerState::new(config), calls).collateral_positive(),
    decreases calls.len(),
{
    if calls.len() > 0 {
        collateral_positive_always(config, calls.drop_last());
        action_keeps_collateral_positive(
            after_all(LedgerState::new(config), calls.drop_last()),
            calls.last(),
        );
    }
}

/// After any sequence of actions on a new ledger, none of which is a loan of
/// nothing, no loan record holds a zero.
pub proof fn loans_positive_always(config: ConfigView, calls: Seq<Call>)
    requires
        forall|i: int| 0 <= i < calls.len() ==> !(#[trigger] calls[i]).msg.borrows_nothing(),
    ensures
        after_all(LedgerState::new(config), calls).loans_positive(),
    decreases calls.len(),
{
    if calls.len() > 0 {
        loans_positive_always(config, calls.drop_last());
        action_keeps_loans_positive(
            after_all(LedgerState::new(config), calls.drop_last()),
            calls.last(),
        );
    }
}

/// An action reads and writes the records of its sender only: those of every
/// other account are after it what they were before.
pub proof fn action_touches_sender_only(state: LedgerState, call: Call, other: Seq<char>)
    requires
        other != call.sender,
    ensures
        after(state, call).collaterals.contains_key(other) == state.collaterals.contains_key(
            other,
        ),
        after(state, call).collaterals[other] == state.collaterals[other],
        after(state, call).loans.contains_key(other) == state.loans.contains_key(other),
        after(state, call).loans[other] == state.loans[other],
{
}

/// The loan records change by loans and repayments alone: a loan gives its
/// sender a record, an accepted repayment takes the sender's record away, and
/// every other action leaves all of them as they are.
pub proof fn loan_records_follow_loans_and_repayments(state: LedgerState, call: Call)
    ensures
        match call.msg {
            ExecuteMsgView::Borrow { amount } => {
                &&& after(state, call).loans.contains_key(call.sender)
                &&& after(state, call).loans[call.sender].amount_borrowed == amount
            },
            ExecuteMsgView::RepayLoan { amount } => {
                execute_outcome(state, call.sender, call.now, call.msg) is Ok ==> !after(
                    state,
                    call,
                ).loans.contains_key(call.sender)
            },
            _ => after(state, call).loans == state.loans,
        },
{
}

/// Only the owner changes the base rate, and the change reaches nothing else:
/// every collateral record and every loan record, the rate of each loan
/// included, stays as it is.
pub proof fn rate_update_keeps_records(state: LedgerState, sender: Seq<char>, new_rate: Decimal)
    ensures
        ({
            let outcome = update_interest_rate_outcome(state, sender, new_rate);
            if sender == state.config.owner {
                &&& outcome is Ok
                &&& outcome->Ok_0.0.config.owner == state.config.owner
                &&& outcome->Ok_0.0.config.base_interest_rate == new_rate
                &&& outcome->Ok_0.0.loans == state.loans
                &&& outcome->Ok_0.0.collaterals == state.collaterals
            } else {
                outcome is Err && outcome->Err_0 == ContractError::Unauthorized
            }
        }),
{
}

/// What is saved is what is loaded: a ledger to which a configuration or a
/// record was saved holds it with every field as it was saved.
pub proof fn saved_records_are_kept(
    state: LedgerState,
    account: Seq<char>,
    config: ConfigView,
    collateral: CollateralView,
    loan: LoanInfo,
)
    ensures
        state.with_config(config).config == config,
        state.with_collateral(account, collateral).collaterals.contains_key(account),
        state.with_collateral(account, collateral).collaterals[account] == collateral,
        state.with_loan(account, loan).loans.contains_key(account),
        state.with_loan(account, loan).loans[account] == loan,
{
}

/// Depositing a positive amount and then withdrawing the same amount of the
/// same token leaves the account without a collateral record.
pub proof fn deposit_then_withdraw_all(
    state: LedgerState,
    sender: Seq<char>,
    token_address: Seq<char>,
    amount: u128,
)
    requires
        amount > 0,
    ensures
        ({
            let deposited = deposit_collateral_outcome(state, sender, token_address, amount);
            let withdrawn = withdraw_collateral_outcome(
                deposited->Ok_0.0,
                sender,
                token_address,
                amount,
            );
            &&& deposited is Ok
            &&& withdrawn is Ok
            &&& !withdrawn->Ok_0.0.collaterals.contains_key(sender)
        }),
{
}

/// A deposit is rejected if and only if it is a deposit of zero, and then
/// with `InvalidAmount`.
pub proof fn deposit_rejected_iff_zero(
    state: LedgerState,
    sender: Seq<char>,
    token_address: Seq<char>,
    amount: u128,
)
    ensures
        ({
            let outcome = deposit_collateral_outcome(state, sender, token_address, amount);
            &&& outcome is Err <==> amount == 0
            &&& outcome is Err ==> outcome->Err_0 == ContractError::InvalidAmount
        }),
{
}

/// A withdrawal is rejected with `NotFound` if and only if the sender has no
/// collateral record, and with `InvalidState` if and only if the sender has
/// one and it is of another token or holds less than is asked for. Every
/// other withdrawal is accepted.
pub proof fn withdrawal_rejections(
    state: LedgerState,
    sender: Seq<char>,
    token_address: Seq<char>,
    amount: u128,
)
    ensures
        ({
            let outcome = withdraw_collateral_outcome(state, sender, token_address, amount);
            let stored = state.collaterals[sender];
            let has_record = state.collaterals.contains_key(sender);
            let fits = stored.token_address == token_address && amount <= stored.amount;
            &&& outcome is Err && outcome->Err_0 == ContractError::NotFound <==> !has_record
            &&& outcome is Err && outcome->Err_0 == ContractError::InvalidState <==> has_record
                && !fits
            &&& outcome is Ok <==> has_record && fits
        }),
{
}

/// A repayment is rejected with `NotFound` if and only if the sender has no
/// loan. It is accepted if and only if the sender has a loan and the payment
/// covers principal plus interest.
pub proof fn repayment_rejections(state: LedgerState, sender: Seq<char>, amount: u128)
    ensures
        ({
            let outcome = repay_loan_outcome(state, sender, amount);
            let has_loan = state.loans.contains_key(sender);
            &&& outcome is Err && outcome->Err_0 == ContractError::NotFound <==> !has_loan
            &&& outcome is Ok <==> has_loan && state.loans[sender].total_due() <= amount
        }),
{
}

/// A loan of `amount` is closed by a payment of the amount and a twentieth of
/// it, or more, and by nothing less; the interest reported is the twentieth.
pub proof fn loan_is_repaid_with_a_twentieth_on_top(
    state: LedgerState,
    sender: Seq<char>,
    now: u64,
    amount: u128,
    payment: u128,
)
    requires
        amount + amount / 20 <= u128::MAX,
    ensures
        ({
            let borrowed = borrow_outcome(state, sender, now, amount);
            let repaid = repay_loan_outcome(borrowed->Ok_0.0, sender, payment);
            &&& borrowed is Ok
            &&& payment < amount + amount / 20 ==> repaid is Err && repaid->Err_0
                == ContractError::InsufficientPayment
            &&& payment >= amount + amount / 20 ==> {
                &&& repaid is Ok
                &&& !repaid->Ok_0.0.loans.contains_key(sender)
                &&& repaid->Ok_0.1 == repay_response(payment, (amount / 20) as nat)
            }
        }),
{
    interest_at_borrow_rate(amount);
}

/// At the rate of new loans the interest is a twentieth of the principal,
/// rounded down.
pub proof fn interest_at_borrow_rate(amount: u128)
    ensures
        mul_floor(amount, borrow_rate()) == amount / 20,
{
    let a = amount as int;
    assert(borrow_rate().atomics == 50_000_000_000_000_000);
    assert((a * 50_000_000_000_000_000) / 1_000_000_000_000_000_000 == a / 20) by (nonlinear_arith);
}

} // verus!
