//! Authentication gateway core: token verification, identity-provider
//! request logic, role-based access decisions and the error taxonomy.

pub mod access;
pub mod claims;
pub mod exchange;
pub mod keycloak;
pub mod server_config;
pub mod server_error;

use vstd::prelude::*;

pub use access::{AuthError, RouteDecision, authorize, bearer_token, granted_roles, request_roles};
pub use claims::{Claims, ClaimsRealmAccess, KeyError, TokenFault, TokenVerifier, VerificationError, TokenRules, initialize, to_validation, token_rules, verify_decoded};
pub use keycloak::{CreateUserRequest, CreateUserRequestCredentials, KeycloakClient};
pub use server_config::ServerConfig;
pub use server_error::{ErrorBody, ServerError};

verus! {

/// HTTP 200.
pub const STATUS_OK: u16 = 200;

/// The state shared by every request: the configuration, read once.
#[derive(Clone)]
pub struct WebServerState {
    config: std::sync::Arc<ServerConfig>,
}

impl WebServerState {
    /// The configuration shared.
    pub closed spec fn config_view(&self) -> ServerConfig {
        *self.config
    }

    /// The state around `config`.
    pub fn new(config: ServerConfig) -> (r: WebServerState)
        ensures
            r.config_view() == config,
    {
        WebServerState { config: std::sync::Arc::new(config) }
    }

    /// The configuration shared.
    pub fn config(&self) -> (r: &ServerConfig)
        ensures
            *r == self.config_view(),
    {
        &self.config
    }
}

/// A response with a status and a fixed text body.
#[derive(Debug)]
pub struct PlainReply {
    pub status: u16,
    pub body: &'static str,
}

/// The health check: 200 with the body `OK`, for every request.
pub fn health_reply() -> (r: PlainReply)
    ensures
        r.status == STATUS_OK,
        r.body@ == "OK"@,
{
    PlainReply { status: STATUS_OK, body: "OK" }
}

} // verus!
