//! The deployment endpoint: what it is asked and what it answers.
//!
//! No contract is deployed anywhere yet. Every submission is answered with
//! the same placeholder address, whatever code it carries, after a fixed
//! wait that stands in for the work.

use vstd::prelude::*;

use crate::model::{ContractRequest, ContractRequestView, DeployResponse, DeployResponseView};
use crate::reply::{Payload, PayloadView, Reply, ReplyView, STATUS_OK};

verus! {

/// How long a deployment is held back before it is answered, in seconds.
///
/// A placeholder for the time a real deployment would take.
pub const DEPLOY_DELAY_SECS: u64 = 2;

/// The address every deployment reports: a placeholder for the address a
/// real deployment would return.
pub const MOCK_ADDRESS: &'static str = "CgaTAMXGKEWPVWuSqFfWKhFJpZ7TxU2YpwvDMZVt8Zhb";

/// The status every deployment reports.
pub const STATUS_SUCCESS: &'static str = "success";

/// The outcome that the placeholder backend reports for the given code.
pub open spec fn mock_outcome(contract_code: Seq<char>) -> DeployResponseView {
    DeployResponseView { contract_address: MOCK_ADDRESS@, status: STATUS_SUCCESS@ }
}

/// What the backend does about a deployment request: it holds the reply back
/// for some time, then sends it.
#[derive(Debug, PartialEq, Eq)]
pub struct Deployment {
    /// How long to wait before the reply is sent, in seconds.
    pub delay_secs: u64,
    /// The reply to send once the wait is over.
    pub reply: Reply,
}

/// The mathematical view of a [`Deployment`].
pub struct DeploymentView {
    pub delay_secs: int,
    pub reply: ReplyView,
}

impl View for Deployment {
    type V = DeploymentView;

    open spec fn view(&self) -> DeploymentView {
        DeploymentView { delay_secs: self.delay_secs as int, reply: self.reply@ }
    }
}

/// How the deployment endpoint handles a request: after
/// [`DEPLOY_DELAY_SECS`] it answers with status 200 and, as JSON, the
/// outcome that the placeholder backend reports.
pub open spec fn deployment_of(request: ContractRequestView) -> DeploymentView {
    DeploymentView {
        delay_secs: DEPLOY_DELAY_SECS as int,
        reply: ReplyView {
            status: STATUS_OK as int,
            payload: PayloadView::Json(mock_outcome(request.contract_code)),
        },
    }
}

/// The placeholder deployment backend.
///
/// This is the one place that decides what a deployment results in. It
/// reports success at [`MOCK_ADDRESS`] for any code.
pub fn mock_deploy(contract_code: &str) -> (outcome: DeployResponse)
    ensures
        outcome@ == mock_outcome(contract_code@),
{
    DeployResponse {
        contract_address: MOCK_ADDRESS.to_owned(),
        status: STATUS_SUCCESS.to_owned(),
    }
}

/// Handles a deployment request.
///
/// Every request is accepted, whatever code it carries. The reply is to be
/// sent once [`DEPLOY_DELAY_SECS`] have passed; it has status 200 and
/// carries the outcome of [`mock_deploy`].
pub fn deploy_contract(contract: &ContractRequest) -> (deployment: Deployment)
    ensures
        deployment@ == deployment_of(contract@),
{
    let outcome = mock_deploy(contract.contract_code.as_str());
    Deployment {
        delay_secs: DEPLOY_DELAY_SECS,
        reply: Reply { status: STATUS_OK, payload: Payload::Json(outcome) },
    }
}

/// A deployment is handled the same way whatever was submitted: neither the
/// wait nor any part of the reply depends on the request.
pub proof fn deployment_ignores_request(a: ContractRequestView, b: ContractRequestView)
    ensures
        deployment_of(a) == deployment_of(b),
{
}

} // verus!
