//! What the contract keeps between calls.

use vstd::prelude::*;

verus! {

/// The contract's stored state: who set it up.
#[derive(Clone, Debug, PartialEq)]
pub struct State {
    pub owner: String,
}

/// The mathematical content of a [`State`].
#[verifier::ext_equal]
pub struct StateView {
    pub owner: Seq<char>,
}

impl View for State {
    type V = StateView;

    open spec fn view(&self) -> StateView {
        StateView { owner: self.owner@ }
    }
}

/// The name and version under which a contract is recorded at set-up.
#[derive(Clone, Debug, PartialEq)]
pub struct ContractVersion {
    pub contract: String,
    pub version: String,
}

/// The mathematical content of a [`ContractVersion`].
#[verifier::ext_equal]
pub struct ContractVersionView {
    pub contract: Seq<char>,
    pub version: Seq<char>,
}

impl View for ContractVersion {
    type V = ContractVersionView;

    open spec fn view(&self) -> ContractVersionView {
        ContractVersionView { contract: self.contract@, version: self.version@ }
    }
}

} // verus!
