//! The values that travel through the deployment endpoint.
//!
//! Both live for one request only: nothing is stored and nothing is shared.

use vstd::prelude::*;

verus! {

/// A request to deploy a contract.
#[derive(Debug, PartialEq, Eq)]
pub struct ContractRequest {
    /// The contract's code. Any text is accepted; none of it is inspected.
    pub contract_code: String,
}

/// The mathematical view of a [`ContractRequest`].
pub struct ContractRequestView {
    pub contract_code: Seq<char>,
}

impl View for ContractRequest {
    type V = ContractRequestView;

    open spec fn view(&self) -> ContractRequestView {
        ContractRequestView { contract_code: self.contract_code@ }
    }
}

/// The outcome of a deployment.
#[derive(Debug, PartialEq, Eq)]
pub struct DeployResponse {
    /// Where the contract now lives.
    pub contract_address: String,
    /// How the deployment went.
    pub status: String,
}

/// The mathematical view of a [`DeployResponse`].
pub struct DeployResponseView {
    pub contract_address: Seq<char>,
    pub status: Seq<char>,
}

impl View for DeployResponse {
    type V = DeployResponseView;

    open spec fn view(&self) -> DeployResponseView {
        DeployResponseView { contract_address: self.contract_address@, status: self.status@ }
    }
}

} // verus!
