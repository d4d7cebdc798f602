use marzban_api::client::MarzbanAPIClient;
use marzban_api::dispatch::Method;
use marzban_api::error::ApiError;
use marzban_api::models::token::Token;

#[test]
fn new_client_has_no_token() {
    let c = MarzbanAPIClient::new("http://localhost:8000");
    assert_eq!(c.base_url, "http://localhost:8000");
    assert!(c.token.is_none());
}

#[test]
fn new_with_token_seeds_token() {
    let c = MarzbanAPIClient::new_with_token("http://localhost:8000", "tok-seed");
    assert_eq!(c.base_url, "http://localhost:8000");
    assert_eq!(c.token.as_deref(), Some("tok-seed"));
}

#[test]
fn unauthenticated_requests_have_no_bearer() {
    let c = MarzbanAPIClient::new("http://localhost:8000");
    let r1 = c.prepare_authorized_request(Method::Get, String::from("http://localhost:8000/api/admin"));
    let r2 = c.prepare_authorized_request(Method::Get, String::from("http://localhost:8000/api/system"));
    let r3 = c.prepare_authorized_request(Method::Get, String::from("http://localhost:8000/api/nodes"));
    assert!(r1.bearer.is_none());
    assert!(r2.bearer.is_none());
    assert!(r3.bearer.is_none());
}

#[test]
fn request_after_authentication_carries_new_token() {
    let mut c = MarzbanAPIClient::new("http://localhost:8000");
    let issued = Token { access_token: String::from("tok-abc"), token_type: Some(String::from("bearer")) };
    let stored = c.store_issued_token(Ok(issued));
    assert!(stored.is_ok());
    let r = c.prepare_authorized_request(Method::Get, String::from("http://localhost:8000/api/admin"));
    assert_eq!(r.bearer.as_deref(), Some("tok-abc"));
}

#[test]
fn failed_authentication_keeps_previous_token() {
    let mut c = MarzbanAPIClient::new_with_token("http://localhost:8000", "old-token");
    let outcome: Result<Token, ApiError> = Err(ApiError::UnexpectedResponse);
    let stored = c.store_issued_token(outcome);
    assert!(matches!(stored, Err(ApiError::UnexpectedResponse)));
    assert_eq!(c.token.as_deref(), Some("old-token"));
}

#[test]
fn failed_authentication_keeps_absent_token() {
    let mut c = MarzbanAPIClient::new("http://localhost:8000");
    let outcome: Result<Token, ApiError> = Err(ApiError::NetworkError(String::from("timed out")));
    let stored = c.store_issued_token(outcome);
    assert!(stored.is_err());
    assert!(c.token.is_none());
}

#[test]
fn successful_authentication_replaces_token() {
    let mut c = MarzbanAPIClient::new_with_token("http://localhost:8000", "old-token");
    let issued = Token { access_token: String::from("new-token"), token_type: None };
    assert!(c.store_issued_token(Ok(issued)).is_ok());
    assert_eq!(c.token.as_deref(), Some("new-token"));
}
