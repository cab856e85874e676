//! What can go wrong while the contract serves a request.

use vstd::prelude::*;

verus! {

/// `cosmwasm_std::StdError`, the host's own error. The library never looks
/// inside one: it only carries it from the driver back to the caller.
#[verifier::external_type_specification]
#[verifier::external_body]
pub struct ExStdError(cosmwasm_std::StdError);

/// Why a request was not served.
#[derive(Debug, PartialEq)]
pub enum ContractError {
    /// The host failed: the oracle could not be reached, its answer could not
    /// be read, or storage refused a write. The host's error is kept as it
    /// came.
    Std(cosmwasm_std::StdError),
    /// The oracle answered a question other than the one it was asked.
    UnexpectedAnswer,
    /// The tax came out larger than the amount it is taken from.
    Underflow,
}

} // verus!
