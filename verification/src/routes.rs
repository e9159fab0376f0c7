//! Which endpoints the backend offers, and where.
//!
//! An endpoint is served for exactly one method and one path. A request is
//! matched on both, letter for letter; whatever matches no endpoint is not
//! found.

use vstd::prelude::*;

use crate::text::text_eq;

verus! {

/// The path of the liveness probe.
pub const HEALTH_PATH: &'static str = "/health";

/// The path of the deployment endpoint.
pub const DEPLOY_PATH: &'static str = "/deploy";

/// The method of an HTTP request.
#[derive(Debug, Clone, Copy, PartialEq, Eq, Structural)]
pub enum Method {
    Get,
    Head,
    Post,
    Put,
    Delete,
    Connect,
    Options,
    Trace,
    Patch,
}

/// An endpoint of the backend.
#[derive(Debug, Clone, Copy, PartialEq, Eq, Structural)]
pub enum Endpoint {
    /// The liveness probe.
    Health,
    /// The deployment of a contract.
    Deploy,
}

impl Endpoint {
    /// The method under which the endpoint is served.
    pub open spec fn spec_method(self) -> Method {
        match self {
            Endpoint::Health => Method::Get,
            Endpoint::Deploy => Method::Post,
        }
    }

    /// The path under which the endpoint is served.
    pub open spec fn spec_path(self) -> Seq<char> {
        match self {
            Endpoint::Health => HEALTH_PATH@,
            Endpoint::Deploy => DEPLOY_PATH@,
        }
    }

    /// Whether the endpoint is the one that serves `method` on `path`.
    pub open spec fn serves(self, method: Method, path: Seq<char>) -> bool {
        method == self.spec_method() && path == self.spec_path()
    }

    /// The method under which the endpoint is served.
    pub fn method(self) -> (method: Method)
        ensures
            method == self.spec_method(),
    {
        match self {
            Endpoint::Health => Method::Get,
            Endpoint::Deploy => Method::Post,
        }
    }

    /// The path under which the endpoint is served.
    pub fn path(self) -> (path: &'static str)
        ensures
            path@ == self.spec_path(),
    {
        match self {
            Endpoint::Health => HEALTH_PATH,
            Endpoint::Deploy => DEPLOY_PATH,
        }
    }
}

/// Every endpoint of the backend, in the order in which they are registered.
pub open spec fn all_endpoints() -> Seq<Endpoint> {
    seq![Endpoint::Health, Endpoint::Deploy]
}

/// The endpoint that serves `method` on `path`, if there is one.
pub open spec fn route_of(method: Method, path: Seq<char>) -> Option<Endpoint> {
    if Endpoint::Health.serves(method, path) {
        Some(Endpoint::Health)
    } else if Endpoint::Deploy.serves(method, path) {
        Some(Endpoint::Deploy)
    } else {
        None
    }
}

/// Lists every endpoint of the backend, for a server to register.
pub fn endpoints() -> (all: Vec<Endpoint>)
    ensures
        all@ == all_endpoints(),
{
    let mut all: Vec<Endpoint> = Vec::new();
    all.push(Endpoint::Health);
    all.push(Endpoint::Deploy);
    all
}

/// Finds the endpoint that serves `method` on `path`.
///
/// `None` means that the backend has nothing there: the request is
/// answered as not found.
pub fn resolve(method: Method, path: &str) -> (found: Option<Endpoint>)
    ensures
        found == route_of(method, path@),
{
    if method == Method::Get && text_eq(path, HEALTH_PATH) {
        Some(Endpoint::Health)
    } else if method == Method::Post && text_eq(path, DEPLOY_PATH) {
        Some(Endpoint::Deploy)
    } else {
        None
    }
}

/// A request finds an endpoint exactly when that endpoint serves the
/// request's method on the request's path. No request finds two.
pub proof fn route_of_is_exact(method: Method, path: Seq<char>, endpoint: Endpoint)
    ensures
        route_of(method, path) == Some(endpoint) <==> endpoint.serves(method, path),
{
}

/// Every listed endpoint is found under its own method and path, and every
/// endpoint is listed.
pub proof fn every_endpoint_is_routed(endpoint: Endpoint)
    ensures
        all_endpoints().contains(endpoint),
        route_of(endpoint.spec_method(), endpoint.spec_path()) == Some(endpoint),
{
    assert(all_endpoints()[0] == Endpoint::Health);
    assert(all_endpoints()[1] == Endpoint::Deploy);
}

/// A request that is neither a `GET` of [`HEALTH_PATH`] nor a `POST` of
/// [`DEPLOY_PATH`] finds no endpoint.
pub proof fn unknown_request_is_not_found(method: Method, path: Seq<char>)
    requires
        !(method == Method::Get && path == HEALTH_PATH@),
        !(method == Method::Post && path == DEPLOY_PATH@),
    ensures
        route_of(method, path) is None,
{
}

} // verus!
