//! Fixed-point arithmetic of the capped withdrawal tax.

use vstd::prelude::*;

verus! {

/// Fixed-point scale of a tax rate: the rate `1` has numerator `SCALE`.
pub const SCALE: u128 = 1_000_000_000_000_000_000;

/// `value * numerator / denominator`, rounded down.
pub open spec fn ratio(value: int, numerator: int, denominator: int) -> int {
    (value * numerator) / denominator
}

/// The proportional part of the tax on `amount` at a rate of
/// `numerator / SCALE`.
pub open spec fn proportional_tax(amount: int, numerator: int) -> int {
    ratio(amount, SCALE as int, SCALE + numerator)
}

/// The tax on `amount`: the proportional part, but never more than `cap`.
pub open spec fn tax_amount(amount: int, cap: int, numerator: int) -> int {
    let proportional = proportional_tax(amount, numerator);
    if cap <= proportional {
        cap
    } else {
        proportional
    }
}

/// What is left of `amount` once the tax is taken.
pub open spec fn withdraw_amount(amount: int, cap: int, numerator: int) -> int {
    amount - tax_amount(amount, cap, numerator)
}

/// The proportional part is never negative and never exceeds the amount it
/// is taken from.
pub proof fn lemma_proportional_tax_bounds(amount: int, numerator: int)
    requires
        0 <= amount,
        0 <= numerator,
    ensures
        0 <= proportional_tax(amount, numerator) <= amount,
{
    let s = SCALE as int;
    let d = s + numerator;
    assert(0 <= (amount * s) / d <= amount) by (nonlinear_arith)
        requires
            0 <= amount,
            0 < s <= d,
    ;
}

/// The tax never exceeds the amount, so nothing negative is left to withdraw.
pub proof fn lemma_tax_within_amount(amount: int, cap: int, numerator: int)
    requires
        0 <= amount,
        0 <= cap,
        0 <= numerator,
    ensures
        0 <= tax_amount(amount, cap, numerator) <= amount,
        0 <= withdraw_amount(amount, cap, numerator) <= amount,
{
    lemma_proportional_tax_bounds(amount, numerator);
}

/// Under a cap of zero no tax is due, whatever the rate: the whole amount can
/// be withdrawn.
pub proof fn lemma_zero_cap_is_tax_free(amount: int, numerator: int)
    requires
        0 <= amount,
        0 <= numerator,
    ensures
        tax_amount(amount, 0, numerator) == 0,
        withdraw_amount(amount, 0, numerator) == amount,
{
    lemma_proportional_tax_bounds(amount, numerator);
}

/// Calls `cosmwasm_std::Uint128::multiply_ratio`, which multiplies in 256
/// bits and divides rounding down. It panics on a zero denominator and when
/// the quotient does not fit in 128 bits; both are excluded here.
#[verifier::external_body]
pub(crate) fn multiply_ratio(value: u128, numerator: u128, denominator: u128) -> (r: u128)
    requires
        denominator != 0,
        ratio(value as int, numerator as int, denominator as int) <= u128::MAX,
    ensures
        r == ratio(value as int, numerator as int, denominator as int),
{
    cosmwasm_std::Uint128::new(value).multiply_ratio(numerator, denominator).u128()
}

} // verus!
