//! Fixed-point rates and the arithmetic and text forms of amounts.
//!
//! Amounts are `u128`. A rate is a `Decimal` with eighteen fractional digits,
//! the same representation as `cosmwasm_std::Decimal`, whose arithmetic and
//! formatting this module calls.

use vstd::prelude::*;
use crate::error::ContractError;
use crate::text::{decimal_digits, decimal_text};

verus! {

/// The number of atomic units in one whole: ten to the eighteenth.
pub const DECIMAL_FRACTIONAL: u128 = 1_000_000_000_000_000_000;

/// The number of atomic units in one percent: ten to the sixteenth.
pub const DECIMAL_PERCENT: u128 = 10_000_000_000_000_000;

/// A non-negative fixed-point number with eighteen fractional digits. Its
/// value is `atomics / 10^18`.
#[derive(Clone, Copy, Debug, PartialEq, Eq, Structural)]
pub struct Decimal {
    pub atomics: u128,
}

/// The error of `Uint128::checked_mul_floor` of cosmwasm_std, carried through
/// unread.
#[verifier::external_type_specification]
#[verifier::external_body]
pub struct ExCheckedMultiplyFractionError(cosmwasm_std::CheckedMultiplyFractionError);

/// `amount` times `rate`, rounded down to a whole amount.
pub open spec fn mul_floor(amount: u128, rate: Decimal) -> nat {
    (amount as nat * rate.atomics as nat) / (DECIMAL_FRACTIONAL as nat)
}

/// Calls `Uint128::checked_mul_floor` of cosmwasm_std with a
/// `cosmwasm_std::Decimal` of the same atomics. That function forms the full
/// 256-bit product of the amount and the rate's atomics, divides it by ten to
/// the eighteenth rounding down, and fails exactly when the quotient does not
/// fit in 128 bits.
#[verifier::external_body]
fn uint128_checked_mul_floor(amount: u128, rate: Decimal) -> (result: Result<
    u128,
    cosmwasm_std::CheckedMultiplyFractionError,
>)
    ensures
        result is Ok <==> mul_floor(amount, rate) <= u128::MAX,
        result is Ok ==> result->Ok_0 == mul_floor(amount, rate),
{
    let rate = cosmwasm_std::Decimal::raw(rate.atomics);
    match cosmwasm_std::Uint128::new(amount).checked_mul_floor(rate) {
        Ok(product) => Ok(product.u128()),
        Err(e) => Err(e),
    }
}

/// Calls `Decimal::percent` of cosmwasm_std, which returns the decimal whose
/// atomics are `x` times ten to the sixteenth.
#[verifier::external_body]
fn decimal_percent(x: u64) -> (rate: Decimal)
    ensures
        rate.atomics == x * DECIMAL_PERCENT,
{
    Decimal { atomics: cosmwasm_std::Decimal::percent(x).atomics().u128() }
}

/// Calls `to_string` on a `cosmwasm_std::Uint128`, whose `Display` is that of
/// the `u128` inside: the decimal digits of the number.
#[verifier::external_body]
pub(crate) fn uint128_to_string(value: u128) -> (text: String)
    ensures
        text@ == decimal_digits(value as nat),
{
    cosmwasm_std::Uint128::new(value).to_string()
}

/// Calls `to_string` on a `cosmwasm_std::Decimal` of the same atomics. Its
/// `Display` writes the whole part alone where the fractional part is zero,
/// and otherwise the whole part, a point, and the fractional part padded with
/// zeros to eighteen digits and then stripped of the zeros at its end.
#[verifier::external_body]
fn decimal_to_string(rate: Decimal) -> (text: String)
    ensures
        text@ == decimal_text(rate.atomics),
{
    cosmwasm_std::Decimal::raw(rate.atomics).to_string()
}

impl Decimal {
    /// The decimal with the given number of atomic units.
    pub fn raw(atomics: u128) -> (rate: Decimal)
        ensures
            rate.atomics == atomics,
    {
        Decimal { atomics }
    }

    /// `x` percent as a decimal.
    pub fn percent(x: u64) -> (rate: Decimal)
        ensures
            rate.atomics == x * DECIMAL_PERCENT,
    {
        decimal_percent(x)
    }

    /// The number of atomic units.
    pub fn atomics(&self) -> (atomics: u128)
        ensures
            atomics == self.atomics,
    {
        self.atomics
    }

    /// The decimal written out, as in "0.05" for five percent.
    pub fn to_string(&self) -> (text: String)
        ensures
            text@ == decimal_text(self.atomics),
    {
        decimal_to_string(*self)
    }
}

/// `amount` times `rate`, rounded down; `Overflow` exactly when the rounded
/// product does not fit in 128 bits.
pub fn checked_mul_floor(amount: u128, rate: Decimal) -> (result: Result<u128, ContractError>)
    ensures
        match result {
            Ok(product) => product == mul_floor(amount, rate),
            Err(e) => e == ContractError::Overflow && mul_floor(amount, rate) > u128::MAX,
        },
{
    match uint128_checked_mul_floor(amount, rate) {
        Ok(product) => Ok(product),
        Err(_) => Err(ContractError::Overflow),
    }
}

} // verus!
