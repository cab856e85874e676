//! The treasury oracle as the contract sees it: questions and answers.

use vstd::prelude::*;

verus! {

/// The treasury's tax rate, as the fraction `numerator / denominator`.
#[derive(Clone, Copy, Debug, PartialEq, Eq)]
pub struct TaxRate {
    pub numerator: u128,
    pub denominator: u128,
}

/// The most tax that one transfer in some denomination can owe.
#[derive(Clone, Copy, Debug, PartialEq, Eq)]
pub struct TaxCap {
    pub cap: u128,
}

/// A question for the oracle.
#[derive(Clone, Debug, PartialEq, Eq)]
pub enum OracleRequest {
    /// What is the current tax rate?
    TaxRate,
    /// What is the tax cap of `denom`?
    TaxCap { denom: String },
}

/// The mathematical content of an [`OracleRequest`].
pub enum OracleRequestView {
    TaxRate,
    TaxCap { denom: Seq<char> },
}

impl View for OracleRequest {
    type V = OracleRequestView;

    open spec fn view(&self) -> OracleRequestView {
        match self {
            OracleRequest::TaxRate => OracleRequestView::TaxRate,
            OracleRequest::TaxCap { denom } => OracleRequestView::TaxCap { denom: denom@ },
        }
    }
}

/// What the oracle says when it can be reached.
#[derive(Clone, Copy, Debug, PartialEq, Eq)]
pub enum OracleAnswer {
    TaxRate(TaxRate),
    TaxCap(TaxCap),
}

/// What comes back from a request: the oracle's answer, or the host's error
/// when the oracle could not be reached or its answer could not be read.
pub type OracleReply = Result<OracleAnswer, cosmwasm_std::StdError>;

} // verus!
