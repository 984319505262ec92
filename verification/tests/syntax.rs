//! Tests of the syntax helpers: redirect-URI validation, bearer
//! extraction, and the discovery document.

use mcp_oauth::discovery::server_metadata;
use mcp_oauth::strutil::{const_time_str_eq, sat_add, str_eq};
use mcp_oauth::uri::{check_redirect_uri, extract_bearer};

#[test]
fn redirect_uri_validation() {
    assert!(check_redirect_uri("https://app.example/cb"));
    assert!(check_redirect_uri("http://127.0.0.1:8080/cb"));
    assert!(!check_redirect_uri("https://"));
    assert!(!check_redirect_uri("http://"));
    assert!(!check_redirect_uri("ftp://files.example/cb"));
    assert!(!check_redirect_uri("app.example/cb"));
    assert!(!check_redirect_uri(""));
}

#[test]
fn bearer_extraction() {
    assert_eq!(extract_bearer("Bearer abc"), Some("abc".to_string()));
    assert_eq!(extract_bearer("Bearer "), Some("".to_string()));
    assert_eq!(extract_bearer("Basic abc"), None);
    assert_eq!(extract_bearer("bearer abc"), None);
    assert_eq!(extract_bearer(""), None);
}

#[test]
fn string_equality_helpers() {
    assert!(str_eq("alpha", "alpha"));
    assert!(!str_eq("alpha", "alphb"));
    assert!(const_time_str_eq("same-length", "same-length"));
    assert!(!const_time_str_eq("same-length", "same-lengtX"));
    assert!(!const_time_str_eq("short", "longer"));
}

#[test]
fn saturating_expiry_arithmetic() {
    assert_eq!(sat_add(1000, 60), 1060);
    assert_eq!(sat_add(u64::MAX - 10, 60), u64::MAX);
}

#[test]
fn discovery_document_advertises_endpoints() {
    let m = server_metadata("http://127.0.0.1:3000");
    assert_eq!(m.issuer, "http://127.0.0.1:3000");
    assert_eq!(m.authorization_endpoint, "http://127.0.0.1:3000/authorize");
    assert_eq!(m.token_endpoint, "http://127.0.0.1:3000/token");
    assert_eq!(m.registration_endpoint, "http://127.0.0.1:3000/register");
    assert_eq!(m.code_challenge_methods_supported, vec!["S256".to_string()]);
    assert_eq!(
        m.grant_types_supported,
        vec!["authorization_code".to_string()]
    );
    assert_eq!(m.response_types_supported, vec!["code".to_string()]);
}
