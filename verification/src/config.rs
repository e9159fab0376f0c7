//! How the server is set up: where it listens and whom it answers.
//!
//! The configuration is a plain value. It is made once, at startup, and
//! handed to whatever runs the server.

use vstd::prelude::*;

verus! {

/// The address on which the server listens: the loopback interface.
pub const BIND_HOST: &'static str = "127.0.0.1";

/// The port on which the server listens.
pub const BIND_PORT: u16 = 8080;

/// For how long a browser may reuse the answer to a preflight request, in
/// seconds.
pub const PREFLIGHT_MAX_AGE_SECS: usize = 3600;

/// Which cross-origin requests the server admits.
#[derive(Debug, Clone, Copy, PartialEq, Eq, Structural)]
pub struct CorsPolicy {
    /// Requests from every origin are admitted.
    pub allow_any_origin: bool,
    /// Requests with every method are admitted.
    pub allow_any_method: bool,
    /// Requests with every header are admitted.
    pub allow_any_header: bool,
    /// For how long the answer to a preflight request may be reused, in
    /// seconds; `None` leaves it to the browser.
    pub max_age_secs: Option<usize>,
}

impl CorsPolicy {
    /// Whether the policy turns no request away, whatever its origin, method
    /// and headers.
    pub open spec fn admits_everything(self) -> bool {
        self.allow_any_origin && self.allow_any_method && self.allow_any_header
    }

    /// The policy of the backend: every origin, every method and every
    /// header, with preflight answers reusable for
    /// [`PREFLIGHT_MAX_AGE_SECS`].
    pub open spec fn spec_permissive() -> CorsPolicy {
        CorsPolicy {
            allow_any_origin: true,
            allow_any_method: true,
            allow_any_header: true,
            max_age_secs: Some(PREFLIGHT_MAX_AGE_SECS),
        }
    }

    /// The policy of the backend: every origin, every method and every
    /// header, with preflight answers reusable for
    /// [`PREFLIGHT_MAX_AGE_SECS`].
    pub fn permissive() -> (policy: CorsPolicy)
        ensures
            policy == Self::spec_permissive(),
            policy.admits_everything(),
    {
        CorsPolicy {
            allow_any_origin: true,
            allow_any_method: true,
            allow_any_header: true,
            max_age_secs: Some(PREFLIGHT_MAX_AGE_SECS),
        }
    }
}

/// The configuration of the server.
#[derive(Debug, PartialEq, Eq)]
pub struct ServerConfig {
    /// The address to listen on.
    pub host: String,
    /// The port to listen on.
    pub port: u16,
    /// The cross-origin policy to apply to every request.
    pub cors: CorsPolicy,
}

/// The mathematical view of a [`ServerConfig`].
pub struct ServerConfigView {
    pub host: Seq<char>,
    pub port: int,
    pub cors: CorsPolicy,
}

impl View for ServerConfig {
    type V = ServerConfigView;

    open spec fn view(&self) -> ServerConfigView {
        ServerConfigView { host: self.host@, port: self.port as int, cors: self.cors }
    }
}

/// The configuration of the backend: [`BIND_HOST`], [`BIND_PORT`] and the
/// permissive cross-origin policy.
pub open spec fn default_config() -> ServerConfigView {
    ServerConfigView {
        host: BIND_HOST@,
        port: BIND_PORT as int,
        cors: CorsPolicy::spec_permissive(),
    }
}

impl Default for ServerConfig {
    /// The configuration of the backend. Nothing in it is read from the
    /// environment.
    fn default() -> (config: ServerConfig)
        ensures
            config@ == default_config(),
    {
        ServerConfig { host: BIND_HOST.to_owned(), port: BIND_PORT, cors: CorsPolicy::permissive() }
    }
}

} // verus!
