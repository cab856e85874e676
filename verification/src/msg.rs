//! The messages that the contract takes and the records that it answers with.

use vstd::prelude::*;

verus! {

/// Sent once, to set the contract up. It carries nothing.
#[derive(Clone, Debug, PartialEq)]
pub struct InstantiateMsg {}

/// The contract has no operation that changes its state, so this type has
/// no value: its only variant holds an `Infallible`, and there is none.
#[derive(Debug)]
pub enum ExecuteMsg {
    Never(core::convert::Infallible),
}

/// A read-only request.
#[derive(Clone, Debug, PartialEq)]
pub enum QueryMsg {
    /// The treasury's current tax rate.
    GetTaxRate {},
    /// The tax cap of one denomination.
    GetTaxCap { denom: String },
    /// What could be withdrawn of `uusd_amount` once the capped tax is taken.
    GetCalcWithdrawAmount { uusd_amount: u128 },
}

/// The mathematical content of a [`QueryMsg`].
pub enum QueryMsgView {
    GetTaxRate,
    GetTaxCap { denom: Seq<char> },
    GetCalcWithdrawAmount { uusd_amount: u128 },
}

impl View for QueryMsg {
    type V = QueryMsgView;

    open spec fn view(&self) -> QueryMsgView {
        match self {
            QueryMsg::GetTaxRate {  } => QueryMsgView::GetTaxRate,
            QueryMsg::GetTaxCap { denom } => QueryMsgView::GetTaxCap { denom: denom@ },
            QueryMsg::GetCalcWithdrawAmount { uusd_amount } => QueryMsgView::GetCalcWithdrawAmount {
                uusd_amount: *uusd_amount,
            },
        }
    }
}

/// The answer to [`QueryMsg::GetTaxRate`].
#[derive(Clone, Copy, Debug, PartialEq)]
pub struct TaxRateResponse {
    pub tax_rate: u128,
    pub denominator: u128,
}

/// The answer to [`QueryMsg::GetTaxCap`].
#[derive(Clone, Copy, Debug, PartialEq)]
pub struct TaxCapResponse {
    pub tax_cap: u128,
}

/// The answer to [`QueryMsg::GetCalcWithdrawAmount`]. The two parts add up to
/// the amount that was asked about.
#[derive(Clone, Copy, Debug, PartialEq)]
pub struct CalcPossibleWithdrawAmount {
    pub possible_withdraw_amount: u128,
    pub tax_amount: u128,
}

} // verus!
