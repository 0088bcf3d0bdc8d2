use events_finder::keycloak::{admin_token_status, create_user_request, create_user_status, login_response, user_token_status, whoami_username};
use events_finder::{Claims, ClaimsRealmAccess, KeycloakClient, ServerConfig, TokenFault, VerificationError, WebServerState};

fn client() -> KeycloakClient {
    KeycloakClient::new("events", "web", "web-secret", "admin-cli", "admin-secret", "http://idp:8080")
}

fn pairs(form: &[(String, String)]) -> Vec<(&str, &str)> {
    form.iter().map(|(k, v)| (k.as_str(), v.as_str())).collect()
}

#[test]
fn urls_join_base_realm_and_path() {
    let c = client();
    assert_eq!(c.get_full_url("protocol/openid-connect/token"), "http://idp:8080/realms/events/protocol/openid-connect/token");
    assert_eq!(c.get_full_admin_url("users"), "http://idp:8080/admin/realms/events/users");
    assert_eq!(c.token_url(), "http://idp:8080/realms/events/protocol/openid-connect/token");
    assert_eq!(c.users_url(), "http://idp:8080/admin/realms/events/users");
}

#[test]
fn client_from_configuration() {
    let config = ServerConfig {
        address: "127.0.0.1".to_string(),
        port: 8080,
        keycloak_realm: "r".to_string(),
        keycloak_user_client_id: "u".to_string(),
        keycloak_user_client_secret: "us".to_string(),
        keycloak_admin_client_id: "a".to_string(),
        keycloak_admin_client_secret: "as".to_string(),
        keycloak_base_url: "http://b".to_string(),
        keycloak_jwt_public_key: String::new(),
    };
    let state = WebServerState::new(config);
    let c = KeycloakClient::from_server_config(state.config());
    assert_eq!(c.get_full_url("x"), "http://b/realms/r/x");
    assert_eq!(pairs(&c.admin_token_form()), vec![("grant_type", "client_credentials"), ("client_id", "a"), ("client_secret", "as")]);
}

#[test]
fn password_grant_form() {
    let form = client().user_token_form("alice", "pw");
    assert_eq!(
        pairs(&form),
        vec![
            ("grant_type", "password"),
            ("client_id", "web"),
            ("client_secret", "web-secret"),
            ("username", "alice"),
            ("password", "pw"),
        ]
    );
}

#[test]
fn admin_grant_form() {
    let form = client().admin_token_form();
    assert_eq!(pairs(&form), vec![("grant_type", "client_credentials"), ("client_id", "admin-cli"), ("client_secret", "admin-secret")]);
}

#[test]
fn new_user_request() {
    let r = create_user_request("alice", "pw");
    assert_eq!(r.username, "alice");
    assert!(r.enabled);
    assert_eq!(r.credentials.len(), 1);
    assert_eq!(r.credentials[0].type_, "password");
    assert_eq!(r.credentials[0].value, "pw");
    assert!(!r.credentials[0].temporary);
}

#[test]
fn login_with_refused_credentials() {
    let e = user_token_status(401).unwrap_err();
    assert_eq!(e.status_code(), 401);
    let body = e.error_body();
    assert_eq!(body.message, "Invalid user credentials");
    assert_eq!(body.error_code, 1000);
}

#[test]
fn register_existing_user() {
    let e = create_user_status(409).unwrap_err();
    assert_eq!(e.status_code(), 409);
    let body = e.error_body();
    assert_eq!(body.message, "User already exists");
    assert_eq!(body.error_code, 1001);
}

#[test]
fn provider_statuses() {
    assert!(user_token_status(200).is_ok());
    assert!(user_token_status(204).is_ok());
    let e = user_token_status(503).unwrap_err();
    assert_eq!(e.status_code(), 500);
    assert_eq!(e.origin.as_deref(), Some("Status code: 503"));
    assert!(create_user_status(201).is_ok());
    assert_eq!(create_user_status(400).unwrap_err().origin.as_deref(), Some("Status code: 400"));
    assert!(admin_token_status(200).is_ok());
    let e = admin_token_status(401).unwrap_err();
    assert_eq!(e.status_code(), 500);
    assert_eq!(e.origin.as_deref(), Some("Status code: 401"));
    assert_eq!(user_token_status(199).unwrap_err().origin.as_deref(), Some("Status code: 199"));
    assert_eq!(user_token_status(300).unwrap_err().origin.as_deref(), Some("Status code: 300"));
}

#[test]
fn login_returns_verified_token_unchanged() {
    let claims = Claims { username: "alice".to_string(), exp: 10, realm_access: ClaimsRealmAccess { roles: vec![] } };
    assert_eq!(login_response("tok".to_string(), &Ok(claims)).unwrap(), "tok");
}

#[test]
fn login_refuses_token_that_fails_verification() {
    let e = login_response("tok".to_string(), &Err(VerificationError { reason: TokenFault::InvalidSignature })).unwrap_err();
    assert_eq!(e.status_code(), 500);
    assert_eq!(e.message, "Unable to decode token");
    assert_eq!(e.error_code, 3);
    assert_eq!(e.origin.as_deref(), Some("Invalid signature"));
    assert_eq!(e.error_body().message, "Internal server error");
}

#[test]
fn whoami_answers_subject() {
    let claims = Claims { username: "bob".to_string(), exp: 10, realm_access: ClaimsRealmAccess { roles: vec![] } };
    assert_eq!(whoami_username(&claims), "bob");
}
