//! The contract's entry points, free of the host: each takes plain values and
//! says what the host is to store, to ask or to answer.

use vstd::prelude::*;

use crate::error::ContractError;
use crate::msg::{
    CalcPossibleWithdrawAmount, ExecuteMsg, InstantiateMsg, QueryMsg, QueryMsgView,
    TaxCapResponse, TaxRateResponse,
};
use crate::oracle::{
    OracleAnswer, OracleReply, OracleRequest, OracleRequestView, TaxCap, TaxRate,
};
use crate::response::{AttributeView, Response, ResponseView};
use crate::state::{ContractVersion, ContractVersionView, State, StateView};
use crate::tax::{multiply_ratio, tax_amount, withdraw_amount, SCALE};
use crate::tax::{
    lemma_proportional_tax_bounds, lemma_tax_within_amount, lemma_zero_cap_is_tax_free,
};

verus! {

/// The name under which the contract is recorded at set-up.
pub const CONTRACT_NAME: &'static str = "crates.io:terra-cosmwasm-test-contract";

/// The version under which the contract is recorded at set-up.
pub const CONTRACT_VERSION: &'static str = "0.1.0";

/// The denomination in which withdrawals are quoted.
pub const REFERENCE_DENOM: &'static str = "uusd";

/// An amount of one denomination.
#[derive(Clone, Debug, PartialEq)]
pub struct Coin {
    pub denom: String,
    pub amount: u128,
}

/// Who sent a message, and the funds that came with it.
#[derive(Clone, Debug, PartialEq)]
pub struct MessageInfo {
    pub sender: String,
    pub funds: Vec<Coin>,
}

/// What setting the contract up comes to: two records for the host to store,
/// the version first, and the response to give once both are stored.
#[derive(Debug)]
pub struct Instantiation {
    pub version: ContractVersion,
    pub state: State,
    pub response: Response,
}

/// The mathematical content of an [`Instantiation`].
#[verifier::ext_equal]
pub struct InstantiationView {
    pub version: ContractVersionView,
    pub state: StateView,
    pub response: ResponseView,
}

impl View for Instantiation {
    type V = InstantiationView;

    open spec fn view(&self) -> InstantiationView {
        InstantiationView { version: self.version@, state: self.state@, response: self.response@ }
    }
}

/// Setting the contract up for `sender`: the contract is recorded under its
/// name and version, `sender` becomes the owner, and the response logs the
/// method and the owner, in that order, and sends nothing.
pub open spec fn instantiated(sender: Seq<char>) -> InstantiationView {
    InstantiationView {
        version: ContractVersionView { contract: CONTRACT_NAME@, version: CONTRACT_VERSION@ },
        state: StateView { owner: sender },
        response: ResponseView {
            messages: 0,
            attributes: seq![
                AttributeView { key: "method"@, value: "instantiate"@ },
                AttributeView { key: "owner"@, value: sender },
            ],
        },
    }
}

/// Sets the contract up: whoever sends the message becomes its owner.
pub fn instantiate(info: MessageInfo, _msg: InstantiateMsg) -> (r: Result<
    Instantiation,
    ContractError,
>)
    ensures
        r matches Ok(done) && done@ =~~= instantiated(info.sender@),
{
    let state = State { owner: info.sender.clone() };
    let version = ContractVersion {
        contract: CONTRACT_NAME.to_owned(),
        version: CONTRACT_VERSION.to_owned(),
    };
    let response = Response::new().add_attribute("method".to_owned(), "instantiate".to_owned())
        .add_attribute("owner".to_owned(), info.sender);
    Ok(Instantiation { version, state, response })
}

/// Serves a state-changing message. There is none to serve, so the response
/// is empty.
pub fn execute(_msg: ExecuteMsg) -> (r: Result<Response, ContractError>)
    ensures
        r matches Ok(response) && response@.messages == 0 && response@.attributes
            == Seq::<AttributeView>::empty(),
{
    Ok(Response::new())
}

/// Where a query stands while the host asks the oracle on its behalf.
#[derive(Clone, Copy, Debug, PartialEq, Eq)]
pub enum Pending {
    /// A tax-rate query waits for the rate.
    TaxRate,
    /// A tax-cap query waits for the cap.
    TaxCap,
    /// A withdrawal quote waits for the cap of the reference denomination.
    WithdrawCap { uusd_amount: u128 },
    /// A withdrawal quote has the cap and waits for the rate.
    WithdrawRate { uusd_amount: u128, cap: TaxCap },
}

/// The answer to a query, one variant for each kind of [`QueryMsg`].
#[derive(Clone, Copy, Debug, PartialEq)]
pub enum QueryResponse {
    TaxRate(TaxRateResponse),
    TaxCap(TaxCapResponse),
    CalcWithdrawAmount(CalcPossibleWithdrawAmount),
}

/// What the host is to do next for a query.
#[derive(Debug, PartialEq)]
pub enum Step {
    /// Put `request` to the oracle and come back with its reply and
    /// `pending`.
    Ask { request: OracleRequest, pending: Pending },
    /// The query is over: answer it, or fail with the error.
    Done { result: Result<QueryResponse, ContractError> },
}

/// The mathematical content of a [`Step`].
pub enum StepView {
    Ask { request: OracleRequestView, pending: Pending },
    Done { result: Result<QueryResponse, ContractError> },
}

impl View for Step {
    type V = StepView;

    open spec fn view(&self) -> StepView {
        match self {
            Step::Ask { request, pending } => StepView::Ask {
                request: request@,
                pending: *pending,
            },
            Step::Done { result } => StepView::Done { result: *result },
        }
    }
}

/// The tax rate in a reply: the host's error is passed on as it came, and an
/// answer to another question is refused.
pub open spec fn tax_rate_in(reply: OracleReply) -> Result<TaxRate, ContractError> {
    match reply {
        Ok(OracleAnswer::TaxRate(rate)) => Ok(rate),
        Ok(OracleAnswer::TaxCap(_)) => Err(ContractError::UnexpectedAnswer),
        Err(error) => Err(ContractError::Std(error)),
    }
}

/// The tax cap in a reply: the host's error is passed on as it came, and an
/// answer to another question is refused.
pub open spec fn tax_cap_in(reply: OracleReply) -> Result<TaxCap, ContractError> {
    match reply {
        Ok(OracleAnswer::TaxCap(cap)) => Ok(cap),
        Ok(OracleAnswer::TaxRate(_)) => Err(ContractError::UnexpectedAnswer),
        Err(error) => Err(ContractError::Std(error)),
    }
}

/// The answer to a tax-rate query, given the oracle's reply.
pub open spec fn tax_rate_response(reply: OracleReply) -> Result<TaxRateResponse, ContractError> {
    match tax_rate_in(reply) {
        Ok(rate) => Ok(TaxRateResponse { tax_rate: rate.numerator, denominator: rate.denominator }),
        Err(error) => Err(error),
    }
}

/// The answer to a tax-cap query, given the oracle's reply.
pub open spec fn tax_cap_response(reply: OracleReply) -> Result<TaxCapResponse, ContractError> {
    match tax_cap_in(reply) {
        Ok(cap) => Ok(TaxCapResponse { tax_cap: cap.cap }),
        Err(error) => Err(error),
    }
}

/// A rate with which the tax can be computed in 128 bits.
pub open spec fn rate_in_range(rate: TaxRate) -> bool {
    SCALE + rate.numerator <= u128::MAX
}

/// The withdrawal quote for `uusd_amount` under a cap and a rate.
pub open spec fn quote(uusd_amount: u128, cap: TaxCap, rate: TaxRate) -> CalcPossibleWithdrawAmount {
    CalcPossibleWithdrawAmount {
        possible_withdraw_amount: withdraw_amount(
            uusd_amount as int,
            cap.cap as int,
            rate.numerator as int,
        ) as u128,
        tax_amount: tax_amount(uusd_amount as int, cap.cap as int, rate.numerator as int) as u128,
    }
}

/// The quote splits the amount into the tax and the rest, the tax is the
/// smaller of the cap and the proportional part, and it never exceeds the
/// amount. This holds of every amount, cap and rate.
pub proof fn lemma_quote_splits_amount(uusd_amount: u128, cap: TaxCap, rate: TaxRate)
    ensures
        quote(uusd_amount, cap, rate).possible_withdraw_amount + quote(
            uusd_amount,
            cap,
            rate,
        ).tax_amount == uusd_amount,
        quote(uusd_amount, cap, rate).tax_amount <= uusd_amount,
        quote(uusd_amount, cap, rate).tax_amount == vstd::math::min(
            cap.cap as int,
            uusd_amount * SCALE / (SCALE + rate.numerator),
        ),
{
    lemma_tax_within_amount(uusd_amount as int, cap.cap as int, rate.numerator as int);
}

/// Under a cap of zero the quote takes no tax, whatever the rate.
pub proof fn lemma_quote_under_zero_cap(uusd_amount: u128, rate: TaxRate)
    ensures
        quote(uusd_amount, TaxCap { cap: 0 }, rate) == (CalcPossibleWithdrawAmount {
            possible_withdraw_amount: uusd_amount,
            tax_amount: 0,
        }),
{
    lemma_zero_cap_is_tax_free(uusd_amount as int, rate.numerator as int);
}

/// The first step of a query: every query starts with a question for the
/// oracle. A withdrawal quote asks for the cap of the reference denomination.
pub open spec fn first_step(msg: QueryMsgView) -> StepView {
    match msg {
        QueryMsgView::GetTaxRate => StepView::Ask {
            request: OracleRequestView::TaxRate,
            pending: Pending::TaxRate,
        },
        QueryMsgView::GetTaxCap { denom } => StepView::Ask {
            request: OracleRequestView::TaxCap { denom },
            pending: Pending::TaxCap,
        },
        QueryMsgView::GetCalcWithdrawAmount { uusd_amount } => StepView::Ask {
            request: OracleRequestView::TaxCap { denom: REFERENCE_DENOM@ },
            pending: Pending::WithdrawCap { uusd_amount },
        },
    }
}

/// The step that follows a reply. A failed or misplaced reply ends the query
/// with its error; a withdrawal quote that has its cap goes on to ask for the
/// rate.
pub open spec fn next_step(pending: Pending, reply: OracleReply) -> StepView {
    match pending {
        Pending::TaxRate => StepView::Done {
            result: match tax_rate_response(reply) {
                Ok(response) => Ok(QueryResponse::TaxRate(response)),
                Err(error) => Err(error),
            },
        },
        Pending::TaxCap => StepView::Done {
            result: match tax_cap_response(reply) {
                Ok(response) => Ok(QueryResponse::TaxCap(response)),
                Err(error) => Err(error),
            },
        },
        Pending::WithdrawCap { uusd_amount } => match tax_cap_in(reply) {
            Ok(cap) => StepView::Ask {
                request: OracleRequestView::TaxRate,
                pending: Pending::WithdrawRate { uusd_amount, cap },
            },
            Err(error) => StepView::Done { result: Err(error) },
        },
        Pending::WithdrawRate { uusd_amount, cap } => match tax_rate_in(reply) {
            Ok(rate) => StepView::Done {
                result: Ok(QueryResponse::CalcWithdrawAmount(quote(uusd_amount, cap, rate))),
            },
            Err(error) => StepView::Done { result: Err(error) },
        },
    }
}

/// A reply with which a pending query can go on: where it brings the rate for
/// a withdrawal quote, the rate is in range.
pub open spec fn resumable(pending: Pending, reply: OracleReply) -> bool {
    pending is WithdrawRate ==> (reply matches Ok(OracleAnswer::TaxRate(rate)) ==> rate_in_range(
        rate,
    ))
}

/// Starts a query: says what to ask the oracle first.
pub fn query(msg: QueryMsg) -> (step: Step)
    ensures
        step@ == first_step(msg@),
{
    match msg {
        QueryMsg::GetTaxRate {  } => Step::Ask {
            request: OracleRequest::TaxRate,
            pending: Pending::TaxRate,
        },
        QueryMsg::GetTaxCap { denom } => Step::Ask {
            request: OracleRequest::TaxCap { denom },
            pending: Pending::TaxCap,
        },
        QueryMsg::GetCalcWithdrawAmount { uusd_amount } => Step::Ask {
            request: OracleRequest::TaxCap { denom: REFERENCE_DENOM.to_owned() },
            pending: Pending::WithdrawCap { uusd_amount },
        },
    }
}

/// Takes the tax rate out of a reply.
fn expect_tax_rate(reply: OracleReply) -> (r: Result<TaxRate, ContractError>)
    ensures
        r == tax_rate_in(reply),
{
    match reply {
        Ok(OracleAnswer::TaxRate(rate)) => Ok(rate),
        Ok(OracleAnswer::TaxCap(_)) => Err(ContractError::UnexpectedAnswer),
        Err(error) => Err(ContractError::Std(error)),
    }
}

/// Takes the tax cap out of a reply.
fn expect_tax_cap(reply: OracleReply) -> (r: Result<TaxCap, ContractError>)
    ensures
        r == tax_cap_in(reply),
{
    match reply {
        Ok(OracleAnswer::TaxCap(cap)) => Ok(cap),
        Ok(OracleAnswer::TaxRate(_)) => Err(ContractError::UnexpectedAnswer),
        Err(error) => Err(ContractError::Std(error)),
    }
}

/// Answers a tax-cap query from the oracle's reply.
pub fn query_tax_cap(reply: OracleReply) -> (r: Result<TaxCapResponse, ContractError>)
    ensures
        r == tax_cap_response(reply),
{
    let tax_cap = expect_tax_cap(reply)?;
    Ok(TaxCapResponse { tax_cap: tax_cap.cap })
}

/// Answers a tax-rate query from the oracle's reply.
pub fn query_tax_rate(reply: OracleReply) -> (r: Result<TaxRateResponse, ContractError>)
    ensures
        r == tax_rate_response(reply),
{
    let tax_rate = expect_tax_rate(reply)?;
    Ok(TaxRateResponse { tax_rate: tax_rate.numerator, denominator: tax_rate.denominator })
}

/// Quotes a withdrawal of `uusd_amount`: the tax is the proportional part
/// `uusd_amount * SCALE / (SCALE + numerator)`, rounded down and capped, and
/// the rest can be withdrawn. The tax never exceeds the amount, so the guard
/// on the subtraction never fires.
pub fn calc_withdraw_amount(uusd_amount: u128, tax_cap: TaxCap, tax_rate: TaxRate) -> (r: Result<
    CalcPossibleWithdrawAmount,
    ContractError,
>)
    requires
        rate_in_range(tax_rate),
    ensures
        r == Ok::<CalcPossibleWithdrawAmount, ContractError>(quote(uusd_amount, tax_cap, tax_rate)),
        r matches Ok(quoted) && {
            &&& quoted.tax_amount == tax_amount(
                uusd_amount as int,
                tax_cap.cap as int,
                tax_rate.numerator as int,
            )
            &&& quoted.tax_amount <= uusd_amount
            &&& quoted.possible_withdraw_amount + quoted.tax_amount == uusd_amount
        },
{
    proof {
        lemma_proportional_tax_bounds(uusd_amount as int, tax_rate.numerator as int);
        lemma_tax_within_amount(uusd_amount as int, tax_cap.cap as int, tax_rate.numerator as int);
    }
    let proportional: u128 = multiply_ratio(uusd_amount, SCALE, SCALE + tax_rate.numerator);
    let tax_amount: u128 = if tax_cap.cap <= proportional {
        tax_cap.cap
    } else {
        proportional
    };
    match uusd_amount.checked_sub(tax_amount) {
        Some(possible_withdraw_amount) => Ok(
            CalcPossibleWithdrawAmount { possible_withdraw_amount, tax_amount },
        ),
        None => Err(ContractError::Underflow),
    }
}

/// Whether a pending query can go on with this reply.
pub fn can_resume(pending: &Pending, reply: &OracleReply) -> (b: bool)
    ensures
        b == resumable(*pending, *reply),
{
    match pending {
        Pending::WithdrawRate { .. } => match reply {
            Ok(OracleAnswer::TaxRate(rate)) => rate.numerator <= u128::MAX - SCALE,
            _ => true,
        },
        _ => true,
    }
}

/// Goes on with a query once the oracle has replied. A reply that is an
/// error ends the query with that error, whatever was pending.
pub fn resume(pending: Pending, reply: OracleReply) -> (step: Step)
    requires
        resumable(pending, reply),
    ensures
        step@ == next_step(pending, reply),
        reply matches Err(error) ==> step@ == (StepView::Done {
            result: Err(ContractError::Std(error)),
        }),
{
    match pending {
        Pending::TaxRate => Step::Done {
            result: match query_tax_rate(reply) {
                Ok(response) => Ok(QueryResponse::TaxRate(response)),
                Err(error) => Err(error),
            },
        },
        Pending::TaxCap => Step::Done {
            result: match query_tax_cap(reply) {
                Ok(response) => Ok(QueryResponse::TaxCap(response)),
                Err(error) => Err(error),
            },
        },
        Pending::WithdrawCap { uusd_amount } => match expect_tax_cap(reply) {
            Ok(cap) => Step::Ask {
                request: OracleRequest::TaxRate,
                pending: Pending::WithdrawRate { uusd_amount, cap },
            },
            Err(error) => Step::Done { result: Err(error) },
        },
        Pending::WithdrawRate { uusd_amount, cap } => match expect_tax_rate(reply) {
            Ok(rate) => Step::Done {
                result: match calc_withdraw_amount(uusd_amount, cap, rate) {
                    Ok(quoted) => Ok(QueryResponse::CalcWithdrawAmount(quoted)),
                    Err(error) => Err(error),
                },
            },
            Err(error) => Step::Done { result: Err(error) },
        },
    }
}

/// The step after `step` when the host puts each request to `oracle`. A
/// query that is over stays as it is.
pub open spec fn settle(step: StepView, oracle: spec_fn(OracleRequestView) -> OracleReply) -> StepView {
    match step {
        StepView::Ask { request, pending } => next_step(pending, oracle(request)),
        StepView::Done { .. } => step,
    }
}

/// Where a query ends up when the host puts each request to `oracle`.
pub open spec fn outcome(msg: QueryMsgView, oracle: spec_fn(OracleRequestView) -> OracleReply) -> StepView {
    settle(settle(first_step(msg), oracle), oracle)
}

/// Every query is over after at most two questions to the oracle.
pub proof fn lemma_query_ends(msg: QueryMsgView, oracle: spec_fn(OracleRequestView) -> OracleReply)
    ensures
        outcome(msg, oracle) is Done,
{
}

/// The same query put twice to an oracle that has not changed ends the same
/// way both times.
pub proof fn lemma_query_is_idempotent(
    msg: QueryMsgView,
    first: spec_fn(OracleRequestView) -> OracleReply,
    second: spec_fn(OracleRequestView) -> OracleReply,
)
    requires
        forall|request: OracleRequestView| #[trigger] first(request) == second(request),
    ensures
        outcome(msg, first) == outcome(msg, second),
{
}

/// A query whose question the oracle fails to answer ends with the oracle's
/// error: for a withdrawal quote, whichever of its two questions fails, no
/// amount comes back.
pub proof fn lemma_oracle_failure_ends_query(
    msg: QueryMsgView,
    oracle: spec_fn(OracleRequestView) -> OracleReply,
)
    ensures
        first_step(msg) matches StepView::Ask { request, .. } ==> (oracle(request) matches Err(
            error,
        ) ==> outcome(msg, oracle) == (StepView::Done { result: Err(ContractError::Std(error)) })),
        settle(first_step(msg), oracle) matches StepView::Ask { request, .. } ==> (oracle(
            request,
        ) matches Err(error) ==> outcome(msg, oracle) == (StepView::Done {
            result: Err(ContractError::Std(error)),
        })),
{
}

/// A withdrawal quote for which the oracle gives a cap and a rate ends with
/// the quote under that cap and rate.
pub proof fn lemma_quote_outcome(
    uusd_amount: u128,
    oracle: spec_fn(OracleRequestView) -> OracleReply,
    cap: TaxCap,
    rate: TaxRate,
)
    requires
        oracle(OracleRequestView::TaxCap { denom: REFERENCE_DENOM@ }) == Ok::<
            OracleAnswer,
            cosmwasm_std::StdError,
        >(OracleAnswer::TaxCap(cap)),
        oracle(OracleRequestView::TaxRate) == Ok::<OracleAnswer, cosmwasm_std::StdError>(
            OracleAnswer::TaxRate(rate),
        ),
    ensures
        outcome(QueryMsgView::GetCalcWithdrawAmount { uusd_amount }, oracle) == (StepView::Done {
            result: Ok(QueryResponse::CalcWithdrawAmount(quote(uusd_amount, cap, rate))),
        }),
{
}

} // verus!
