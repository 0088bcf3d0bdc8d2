use vstd::prelude::*;

verus! {

/// The address the server binds to where the configuration names none.
pub const DEFAULT_ADDRESS: &'static str = "127.0.0.1";

/// The port the server binds to where the configuration names none.
pub const DEFAULT_PORT: u16 = 8080;

/// The prefix of the environment variables that override configuration values.
pub const ENV_PREFIX: &'static str = "APP";

/// The gateway's settings, read once at startup and never changed.
#[derive(Debug)]
pub struct ServerConfig {
    pub address: String,
    pub port: u16,
    pub keycloak_realm: String,
    pub keycloak_user_client_id: String,
    pub keycloak_user_client_secret: String,
    pub keycloak_admin_client_id: String,
    pub keycloak_admin_client_secret: String,
    pub keycloak_base_url: String,
    pub keycloak_jwt_public_key: String,
}

} // verus!
