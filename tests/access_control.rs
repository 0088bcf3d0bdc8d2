use events_finder::access::STATUS_FORBIDDEN;
use events_finder::{authorize, bearer_token, granted_roles, request_roles, AuthError, Claims, ClaimsRealmAccess, RouteDecision};

fn claims_with(roles: &[&str]) -> Claims {
    Claims {
        username: "alice".to_string(),
        exp: 4_000_000_000,
        realm_access: ClaimsRealmAccess { roles: roles.iter().map(|r| r.to_string()).collect() },
    }
}

fn strings(items: &[&str]) -> Vec<String> {
    items.iter().map(|r| r.to_string()).collect()
}

#[test]
fn bearer_header_yields_token() {
    assert_eq!(bearer_token(Some("Bearer abc.def.ghi")), Ok("abc.def.ghi".to_string()));
    assert_eq!(bearer_token(Some("Bearer ")), Ok(String::new()));
}

#[test]
fn missing_header_is_unauthorized() {
    let r = bearer_token(None);
    assert_eq!(r, Err(AuthError::MissingHeader));
    assert_eq!(r.unwrap_err().status_code(), 401);
}

#[test]
fn malformed_header_is_rejected() {
    assert_eq!(bearer_token(Some("Basic abc")), Err(AuthError::InvalidHeader));
    assert_eq!(bearer_token(Some("Bearer")), Err(AuthError::InvalidHeader));
    assert_eq!(bearer_token(Some("bearer abc")), Err(AuthError::InvalidHeader));
    assert_eq!(bearer_token(Some("")), Err(AuthError::InvalidHeader));
}

#[test]
fn granted_roles_match_token_roles() {
    let c = claims_with(&["user", "admin", "user"]);
    let mut r = granted_roles(Some(&c));
    r.sort();
    assert_eq!(r, strings(&["admin", "user"]));
}

#[test]
fn no_claims_grant_no_roles() {
    assert!(granted_roles(None).is_empty());
    let c = claims_with(&[]);
    assert!(granted_roles(Some(&c)).is_empty());
}

#[test]
fn request_without_token_has_no_roles() {
    let c = claims_with(&["admin"]);
    let r = request_roles(&Err(AuthError::InvalidHeader), Some(&c));
    assert!(r.is_empty());
    let d = authorize(&r, &strings(&["admin"]));
    assert_eq!(d, RouteDecision::Forbidden);
    assert_eq!(d.denial_status(), STATUS_FORBIDDEN);
}

#[test]
fn request_with_verified_token_has_its_roles() {
    let c = claims_with(&["viewer", "editor"]);
    let mut r = request_roles(&Ok("t".to_string()), Some(&c));
    r.sort();
    assert_eq!(r, strings(&["editor", "viewer"]));
    assert!(request_roles(&Ok("t".to_string()), None).is_empty());
}

#[test]
fn route_decisions() {
    let granted = strings(&["user"]);
    assert_eq!(authorize(&granted, &strings(&["admin", "user"])), RouteDecision::Forward);
    assert_eq!(authorize(&granted, &strings(&["admin"])), RouteDecision::Forbidden);
    assert_eq!(authorize(&Vec::new(), &strings(&["user"])), RouteDecision::Forbidden);
    assert_eq!(authorize(&Vec::new(), &Vec::new()), RouteDecision::Forward);
    assert_eq!(RouteDecision::Forward.denial_status(), 0);
}
