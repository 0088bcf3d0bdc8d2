use vstd::prelude::*;

use crate::claims::{Claims, VerificationError, fault_text};
use crate::server_config::ServerConfig;
use crate::server_error::{ServerError, STATUS_CONFLICT, STATUS_INTERNAL_SERVER_ERROR, STATUS_UNAUTHORIZED, status_origin};

verus! {

#[verifier::external_type_specification]
#[verifier::external_body]
pub struct ExAwcClient(awc::Client);

/// Relies on `awc::Client::default`: an HTTP client with default settings.
pub assume_specification[ <awc::Client as core::default::Default>::default ]() -> awc::Client;

/// The provider's token endpoint, below the realm.
pub const TOKEN_PATH: &'static str = "protocol/openid-connect/token";

/// The provider's user collection, below the realm's admin root.
pub const USERS_PATH: &'static str = "users";

/// A form as the pairs of characters it holds.
pub open spec fn form_view(form: Seq<(String, String)>) -> Seq<(Seq<char>, Seq<char>)> {
    form.map_values(|p: (String, String)| (p.0@, p.1@))
}

/// Whether `status` is a success (2xx).
pub open spec fn is_success(status: u16) -> bool {
    200 <= status <= 299
}

/// A client of the identity provider: one realm, a client pair for password
/// grants on behalf of users, and one for administrative calls.
pub struct KeycloakClient {
    realm: String,
    user_client_id: String,
    user_client_secret: String,
    admin_client_id: String,
    admin_client_secret: String,
    base_url: String,
    client: awc::Client,
}

impl KeycloakClient {
    /// The realm every call addresses.
    pub closed spec fn realm(&self) -> Seq<char> {
        self.realm@
    }

    /// The client id of password grants.
    pub closed spec fn user_client_id(&self) -> Seq<char> {
        self.user_client_id@
    }

    /// The client secret of password grants.
    pub closed spec fn user_client_secret(&self) -> Seq<char> {
        self.user_client_secret@
    }

    /// The client id of administrative calls.
    pub closed spec fn admin_client_id(&self) -> Seq<char> {
        self.admin_client_id@
    }

    /// The client secret of administrative calls.
    pub closed spec fn admin_client_secret(&self) -> Seq<char> {
        self.admin_client_secret@
    }

    /// The provider's base URL.
    pub closed spec fn base_url(&self) -> Seq<char> {
        self.base_url@
    }

    /// `{base}/realms/{realm}/{path}`.
    pub open spec fn full_url(&self, path: Seq<char>) -> Seq<char> {
        self.base_url() + "/realms/"@ + self.realm() + "/"@ + path
    }

    /// `{base}/admin/realms/{realm}/{path}`.
    pub open spec fn full_admin_url(&self, path: Seq<char>) -> Seq<char> {
        self.base_url() + "/admin/realms/"@ + self.realm() + "/"@ + path
    }

    /// A client of `realm` at `base_url`, with its two client pairs.
    pub fn new(
        realm: &str,
        user_client_id: &str,
        user_client_secret: &str,
        admin_client_id: &str,
        admin_client_secret: &str,
        base_url: &str,
    ) -> (r: KeycloakClient)
        ensures
            r.realm() == realm@,
            r.user_client_id() == user_client_id@,
            r.user_client_secret() == user_client_secret@,
            r.admin_client_id() == admin_client_id@,
            r.admin_client_secret() == admin_client_secret@,
            r.base_url() == base_url@,
    {
        KeycloakClient {
            realm: realm.to_string(),
            user_client_id: user_client_id.to_string(),
            user_client_secret: user_client_secret.to_string(),
            admin_client_id: admin_client_id.to_string(),
            admin_client_secret: admin_client_secret.to_string(),
            base_url: base_url.to_string(),
            client: awc::Client::default(),
        }
    }

    /// A client with the provider settings of the configuration.
    pub fn from_server_config(config: &ServerConfig) -> (r: KeycloakClient)
        ensures
            r.realm() == config.keycloak_realm@,
            r.user_client_id() == config.keycloak_user_client_id@,
            r.user_client_secret() == config.keycloak_user_client_secret@,
            r.admin_client_id() == config.keycloak_admin_client_id@,
            r.admin_client_secret() == config.keycloak_admin_client_secret@,
            r.base_url() == config.keycloak_base_url@,
    {
        KeycloakClient::new(
            config.keycloak_realm.as_str(),
            config.keycloak_user_client_id.as_str(),
            config.keycloak_user_client_secret.as_str(),
            config.keycloak_admin_client_id.as_str(),
            config.keycloak_admin_client_secret.as_str(),
            config.keycloak_base_url.as_str(),
        )
    }

    /// The HTTP client that carries the calls to the provider.
    pub fn http_client(&self) -> &awc::Client {
        &self.client
    }

    /// The URL of `path` below the realm.
    pub fn get_full_url(&self, path: &str) -> (r: String)
        ensures
            r@ == self.full_url(path@),
    {
        let url = self.base_url.clone().concat("/realms/").concat(self.realm.as_str()).concat("/").concat(path);
        assert(url@ =~= self.full_url(path@));
        url
    }

    /// The URL of `path` below the realm's admin root.
    pub fn get_full_admin_url(&self, path: &str) -> (r: String)
        ensures
            r@ == self.full_admin_url(path@),
    {
        let url = self.base_url.clone().concat("/admin/realms/").concat(self.realm.as_str()).concat("/").concat(
            path,
        );
        assert(url@ =~= self.full_admin_url(path@));
        url
    }

    /// The URL of the token endpoint.
    pub fn token_url(&self) -> (r: String)
        ensures
            r@ == self.full_url(TOKEN_PATH@),
    {
        self.get_full_url(TOKEN_PATH)
    }

    /// The URL of the user collection.
    pub fn users_url(&self) -> (r: String)
        ensures
            r@ == self.full_admin_url(USERS_PATH@),
    {
        self.get_full_admin_url(USERS_PATH)
    }

    /// The form of a password grant for `username`, with the user client pair.
    pub fn user_token_form(&self, username: &str, password: &str) -> (r: Vec<(String, String)>)
        ensures
            form_view(r@) == seq![
                ("grant_type"@, "password"@),
                ("client_id"@, self.user_client_id()),
                ("client_secret"@, self.user_client_secret()),
                ("username"@, username@),
                ("password"@, password@),
            ],
    {
        let mut form: Vec<(String, String)> = Vec::new();
        form.push(("grant_type".to_string(), "password".to_string()));
        form.push(("client_id".to_string(), self.user_client_id.clone()));
        form.push(("client_secret".to_string(), self.user_client_secret.clone()));
        form.push(("username".to_string(), username.to_string()));
        form.push(("password".to_string(), password.to_string()));
        assert(form_view(form@) =~= seq![
            ("grant_type"@, "password"@),
            ("client_id"@, self.user_client_id()),
            ("client_secret"@, self.user_client_secret()),
            ("username"@, username@),
            ("password"@, password@),
        ]);
        form
    }

    /// The form of a client-credentials grant with the admin client pair.
    pub fn admin_token_form(&self) -> (r: Vec<(String, String)>)
        ensures
            form_view(r@) == seq![
                ("grant_type"@, "client_credentials"@),
                ("client_id"@, self.admin_client_id()),
                ("client_secret"@, self.admin_client_secret()),
            ],
    {
        let mut form: Vec<(String, String)> = Vec::new();
        form.push(("grant_type".to_string(), "client_credentials".to_string()));
        form.push(("client_id".to_string(), self.admin_client_id.clone()));
        form.push(("client_secret".to_string(), self.admin_client_secret.clone()));
        assert(form_view(form@) =~= seq![
            ("grant_type"@, "client_credentials"@),
            ("client_id"@, self.admin_client_id()),
            ("client_secret"@, self.admin_client_secret()),
        ]);
        form
    }
}

/// One credential of a user to be created.
#[derive(Debug)]
pub struct CreateUserRequestCredentials {
    pub type_: String,
    pub value: String,
    pub temporary: bool,
}

/// A user to be created on the provider.
#[derive(Debug)]
pub struct CreateUserRequest {
    pub username: String,
    pub enabled: bool,
    pub credentials: Vec<CreateUserRequestCredentials>,
}

/// The request that creates an enabled user with one non-temporary password.
pub fn create_user_request(username: &str, password: &str) -> (r: CreateUserRequest)
    ensures
        r.username@ == username@,
        r.enabled,
        r.credentials@.len() == 1,
        r.credentials@[0].type_@ == "password"@,
        r.credentials@[0].value@ == password@,
        !r.credentials@[0].temporary,
{
    let mut credentials: Vec<CreateUserRequestCredentials> = Vec::new();
    credentials.push(
        CreateUserRequestCredentials { type_: "password".to_string(), value: password.to_string(), temporary: false },
    );
    CreateUserRequest { username: username.to_string(), enabled: true, credentials }
}

/// The answer of the token endpoint to a password grant: 401 means the
/// credentials were refused; any other status but a success is a failure to
/// communicate.
pub fn user_token_status(status: u16) -> (r: Result<(), ServerError>)
    ensures
        r is Ok <==> is_success(status),
        status == STATUS_UNAUTHORIZED ==> (r matches Err(e) && e.is_invalid_user_credentials()),
        status != STATUS_UNAUTHORIZED && !is_success(status) ==> (r matches Err(e)
            && e.is_communication_failure(status_origin(status))),
{
    if status == STATUS_UNAUTHORIZED {
        Err(ServerError::invalid_user_credentials())
    } else if status < 200 || status > 299 {
        Err(ServerError::unexpected_status(status))
    } else {
        Ok(())
    }
}

/// The answer of the token endpoint to the admin client's grant: any status
/// but a success is a failure to communicate.
pub fn admin_token_status(status: u16) -> (r: Result<(), ServerError>)
    ensures
        r is Ok <==> is_success(status),
        !is_success(status) ==> (r matches Err(e) && e.is_communication_failure(status_origin(status))),
{
    if status < 200 || status > 299 {
        Err(ServerError::unexpected_status(status))
    } else {
        Ok(())
    }
}

/// The answer of the user collection to a creation: 409 means the user exists
/// already; any other status but a success is a failure to communicate.
pub fn create_user_status(status: u16) -> (r: Result<(), ServerError>)
    ensures
        r is Ok <==> is_success(status),
        status == STATUS_CONFLICT ==> (r matches Err(e) && e.is_user_already_exists()),
        status != STATUS_CONFLICT && !is_success(status) ==> (r matches Err(e)
            && e.is_communication_failure(status_origin(status))),
{
    if status == STATUS_CONFLICT {
        Err(ServerError::user_already_exists())
    } else if status < 200 || status > 299 {
        Err(ServerError::unexpected_status(status))
    } else {
        Ok(())
    }
}

/// What login answers once the provider has issued `token` and the gateway has
/// verified it itself: the token unchanged where verification succeeded, else
/// an internal error that records why it failed.
pub fn login_response(token: String, verified: &Result<Claims, VerificationError>) -> (r: Result<String, ServerError>)
    ensures
        r is Ok <==> verified is Ok,
        r matches Ok(t) ==> t == token,
        verified matches Err(v) ==> (r matches Err(e) && e.is_decode_failure(fault_text(v.reason))),
{
    match verified {
        Ok(_) => Ok(token),
        Err(e) => Err(ServerError::unable_to_decode_token(e.reason_text())),
    }
}

/// The user name that the identity query answers: the verified subject.
pub fn whoami_username(claims: &Claims) -> (r: String)
    ensures
        r@ == claims.username@,
{
    claims.username.clone()
}

} // verus!
