//! End-to-end tests of the authorization flow: registration, consent,
//! code exchange with PKCE, and the bearer-token gate.

use mcp_oauth::pkce::compute_challenge;
use mcp_oauth::store::McpOAuthStore;
use mcp_oauth::types::{ClientType, OAuthError};

// The verifier/challenge pair of a well-known S256 example.
const VERIFIER: &str = "dBjftJeZ4CVP-mB92K27uhbUJU1p1r_wW1gFWFOEjXk";
const CHALLENGE: &str = "E9Melhoa2OwvFrEMTJguCHaoeK1t8URWbuGJSstw-cM";
const REDIRECT: &str = "https://app.example/cb";

fn register_public(store: &mut McpOAuthStore, client_id: &str) {
    let r = store.register(
        vec![REDIRECT.to_string()],
        ClientType::Public,
        client_id.to_string(),
        "unused-secret".to_string(),
        1000,
    );
    assert!(r.is_ok());
}

/// Runs the flow up to an issued code and returns the code value.
fn issue_code(store: &mut McpOAuthStore, client_id: &str, code_value: &str, now: u64) -> String {
    let rid = store
        .begin_authorization(
            client_id,
            REDIRECT,
            "xyz",
            CHALLENGE,
            "S256",
            "mcp",
            format!("rid-{code_value}"),
            now,
        )
        .unwrap();
    let red = store
        .approve(&rid, true, code_value.to_string(), now)
        .unwrap();
    red.code.unwrap()
}

#[test]
fn register_returns_full_client_record() {
    let mut store = McpOAuthStore::new();
    let client = store
        .register(
            vec![REDIRECT.to_string()],
            ClientType::Confidential,
            "client-1".to_string(),
            "secret-1".to_string(),
            42,
        )
        .unwrap();
    assert_eq!(client.client_id, "client-1");
    assert_eq!(client.client_secret, Some("secret-1".to_string()));
    assert_eq!(client.redirect_uris, vec![REDIRECT.to_string()]);
    assert_eq!(client.registration_time, 42);
    assert!(store.has_client("client-1"));
}

#[test]
fn register_public_client_has_no_secret() {
    let mut store = McpOAuthStore::new();
    let client = store
        .register(
            vec![REDIRECT.to_string()],
            ClientType::Public,
            "client-2".to_string(),
            "ignored".to_string(),
            0,
        )
        .unwrap();
    assert_eq!(client.client_secret, None);
}

#[test]
fn register_rejects_empty_and_malformed_uris() {
    let mut store = McpOAuthStore::new();
    let r = store.register(
        vec![],
        ClientType::Public,
        "c-a".to_string(),
        "s".to_string(),
        0,
    );
    assert_eq!(r.err(), Some(OAuthError::InvalidRedirectUri));
    let r = store.register(
        vec!["ftp://files.example/cb".to_string()],
        ClientType::Public,
        "c-b".to_string(),
        "s".to_string(),
        0,
    );
    assert_eq!(r.err(), Some(OAuthError::InvalidRedirectUri));
    let r = store.register(
        vec![REDIRECT.to_string(), "not-a-uri".to_string()],
        ClientType::Public,
        "c-c".to_string(),
        "s".to_string(),
        0,
    );
    assert_eq!(r.err(), Some(OAuthError::InvalidRedirectUri));
    assert!(!store.has_client("c-c"));
}

#[test]
fn begin_authorization_gated_by_registered_uri() {
    let mut store = McpOAuthStore::new();
    register_public(&mut store, "client-3");
    let r = store.begin_authorization(
        "client-3",
        "https://evil.example/cb",
        "xyz",
        CHALLENGE,
        "S256",
        "mcp",
        "rid-1".to_string(),
        1001,
    );
    assert_eq!(r.err(), Some(OAuthError::InvalidRedirectUri));
    let r = store.begin_authorization(
        "client-3",
        REDIRECT,
        "xyz",
        CHALLENGE,
        "S256",
        "mcp",
        "rid-2".to_string(),
        1001,
    );
    assert_eq!(r.unwrap(), "rid-2");
    assert!(store.has_request("rid-2"));
}

#[test]
fn begin_authorization_unknown_client() {
    let mut store = McpOAuthStore::new();
    let r = store.begin_authorization(
        "nobody",
        REDIRECT,
        "xyz",
        CHALLENGE,
        "S256",
        "mcp",
        "rid-3".to_string(),
        0,
    );
    assert_eq!(r.err(), Some(OAuthError::InvalidClient));
}

#[test]
fn begin_authorization_needs_s256_and_challenge() {
    let mut store = McpOAuthStore::new();
    register_public(&mut store, "client-4");
    let r = store.begin_authorization(
        "client-4",
        REDIRECT,
        "xyz",
        CHALLENGE,
        "plain",
        "mcp",
        "rid-4".to_string(),
        0,
    );
    assert_eq!(r.err(), Some(OAuthError::UnsupportedChallengeMethod));
    let r = store.begin_authorization(
        "client-4",
        REDIRECT,
        "xyz",
        "",
        "S256",
        "mcp",
        "rid-5".to_string(),
        0,
    );
    assert_eq!(r.err(), Some(OAuthError::UnsupportedChallengeMethod));
}

#[test]
fn approve_unknown_request_fails() {
    let mut store = McpOAuthStore::new();
    let r = store.approve("stale", true, "code-x".to_string(), 0);
    assert_eq!(r.err(), Some(OAuthError::UnknownRequest));
}

#[test]
fn deny_redirects_with_access_denied_and_consumes_request() {
    let mut store = McpOAuthStore::new();
    register_public(&mut store, "client-5");
    let rid = store
        .begin_authorization(
            "client-5",
            REDIRECT,
            "xyz",
            CHALLENGE,
            "S256",
            "mcp",
            "rid-6".to_string(),
            1001,
        )
        .unwrap();
    let red = store.approve(&rid, false, "code-y".to_string(), 1002).unwrap();
    assert_eq!(red.code, None);
    assert_eq!(red.state, "xyz");
    assert_eq!(
        red.location(),
        "https://app.example/cb?error=access_denied&state=xyz"
    );
    assert!(!store.has_code("code-y"));
    // the request id can never be presented again
    let r = store.approve(&rid, true, "code-z".to_string(), 1003);
    assert_eq!(r.err(), Some(OAuthError::UnknownRequest));
}

#[test]
fn challenge_of_known_verifier() {
    assert_eq!(compute_challenge(VERIFIER), CHALLENGE);
    assert_ne!(compute_challenge("another-verifier"), CHALLENGE);
}

#[test]
fn full_flow_issues_token_that_opens_the_gate() {
    let mut store = McpOAuthStore::new();
    register_public(&mut store, "client-6");
    let rid = store
        .begin_authorization(
            "client-6",
            REDIRECT,
            "xyz",
            CHALLENGE,
            "S256",
            "mcp",
            "rid-7".to_string(),
            1001,
        )
        .unwrap();
    let red = store.approve(&rid, true, "code-7".to_string(), 1002).unwrap();
    let code = red.code.clone().unwrap();
    assert_eq!(code, "code-7");
    assert_eq!(red.state, "xyz");
    assert_eq!(
        red.location(),
        "https://app.example/cb?code=code-7&state=xyz"
    );
    let token = store
        .exchange(
            "client-6",
            None,
            &code,
            REDIRECT,
            VERIFIER,
            "token-7".to_string(),
            1003,
        )
        .unwrap();
    assert_eq!(token.token, "token-7");
    assert_eq!(token.client_id, "client-6");
    assert_eq!(token.scope, "mcp");
    assert_eq!(token.issued_at, 1003);
    assert_eq!(token.expires_at, 1003 + 3600);
    // the token is admitted; the bare code value is not a token
    let ctx = store.validate_token(&token.token, 1004).unwrap();
    assert_eq!(ctx.client_id, "client-6");
    assert_eq!(ctx.scope, "mcp");
    assert!(store.validate_token(&code, 1004).is_none());
    let header = format!("Bearer {}", token.token);
    assert!(store.validate_bearer(Some(&header), 1004).is_ok());
}

#[test]
fn exchange_is_single_use() {
    let mut store = McpOAuthStore::new();
    register_public(&mut store, "client-7");
    let code = issue_code(&mut store, "client-7", "code-8", 1002);
    let first = store.exchange(
        "client-7",
        None,
        &code,
        REDIRECT,
        VERIFIER,
        "token-8".to_string(),
        1003,
    );
    assert!(first.is_ok());
    let second = store.exchange(
        "client-7",
        None,
        &code,
        REDIRECT,
        VERIFIER,
        "token-9".to_string(),
        1003,
    );
    assert_eq!(second.err(), Some(OAuthError::InvalidGrant));
    let third = store.exchange(
        "client-7",
        None,
        &code,
        REDIRECT,
        VERIFIER,
        "token-10".to_string(),
        1004,
    );
    assert_eq!(third.err(), Some(OAuthError::InvalidGrant));
    // exactly one token came out of the transaction
    assert_eq!(store.token_count(), 1);
    assert!(store.has_token("token-8"));
    assert!(!store.has_token("token-9"));
}

#[test]
fn exchange_rejects_mutated_verifier() {
    let mut store = McpOAuthStore::new();
    register_public(&mut store, "client-8");
    let code = issue_code(&mut store, "client-8", "code-11", 1002);
    let mut mutated = String::from("eBjftJeZ4CVP-mB92K27uhbUJU1p1r_wW1gFWFOEjXk");
    assert_ne!(mutated, VERIFIER);
    let r = store.exchange(
        "client-8",
        None,
        &code,
        REDIRECT,
        &mutated,
        "token-11".to_string(),
        1003,
    );
    assert_eq!(r.err(), Some(OAuthError::InvalidGrant));
    // a failed redemption does not consume the code
    mutated.clear();
    let r = store.exchange(
        "client-8",
        None,
        &code,
        REDIRECT,
        VERIFIER,
        "token-12".to_string(),
        1003,
    );
    assert!(r.is_ok());
}

#[test]
fn exchange_checks_client_and_redirect_binding() {
    let mut store = McpOAuthStore::new();
    register_public(&mut store, "client-9");
    register_public(&mut store, "client-10");
    let code = issue_code(&mut store, "client-9", "code-12", 1002);
    let r = store.exchange(
        "client-10",
        None,
        &code,
        REDIRECT,
        VERIFIER,
        "token-13".to_string(),
        1003,
    );
    assert_eq!(r.err(), Some(OAuthError::InvalidClient));
    let r = store.exchange(
        "client-9",
        None,
        &code,
        "https://app.example/other",
        VERIFIER,
        "token-14".to_string(),
        1003,
    );
    assert_eq!(r.err(), Some(OAuthError::InvalidGrant));
    let r = store.exchange(
        "client-9",
        None,
        "no-such-code",
        REDIRECT,
        VERIFIER,
        "token-15".to_string(),
        1003,
    );
    assert_eq!(r.err(), Some(OAuthError::InvalidGrant));
}

#[test]
fn exchange_checks_confidential_secret() {
    let mut store = McpOAuthStore::new();
    let client = store
        .register(
            vec![REDIRECT.to_string()],
            ClientType::Confidential,
            "client-11".to_string(),
            "secret-11".to_string(),
            1000,
        )
        .unwrap();
    let code = issue_code(&mut store, "client-11", "code-13", 1002);
    let r = store.exchange(
        "client-11",
        None,
        &code,
        REDIRECT,
        VERIFIER,
        "token-16".to_string(),
        1003,
    );
    assert_eq!(r.err(), Some(OAuthError::InvalidClient));
    let r = store.exchange(
        "client-11",
        Some("wrong"),
        &code,
        REDIRECT,
        VERIFIER,
        "token-17".to_string(),
        1003,
    );
    assert_eq!(r.err(), Some(OAuthError::InvalidClient));
    let r = store.exchange(
        "client-11",
        Some(client.client_secret.as_deref().unwrap()),
        &code,
        REDIRECT,
        VERIFIER,
        "token-18".to_string(),
        1003,
    );
    assert!(r.is_ok());
}

#[test]
fn expired_code_is_as_good_as_absent() {
    let mut store = McpOAuthStore::new();
    register_public(&mut store, "client-12");
    // codes live for sixty seconds from issuance
    let code = issue_code(&mut store, "client-12", "code-14", 1000);
    let expired_err = store
        .exchange(
            "client-12",
            None,
            &code,
            REDIRECT,
            VERIFIER,
            "token-19".to_string(),
            1060,
        )
        .err();
    assert_eq!(expired_err, Some(OAuthError::InvalidGrant));
    // and the same error shape as a code that never existed
    let absent_err = store
        .exchange(
            "client-12",
            None,
            "never-issued",
            REDIRECT,
            VERIFIER,
            "token-20".to_string(),
            1060,
        )
        .err();
    assert_eq!(absent_err, expired_err);
    // one second before the boundary the code still redeems
    let code = issue_code(&mut store, "client-12", "code-15", 1000);
    let r = store.exchange(
        "client-12",
        None,
        &code,
        REDIRECT,
        VERIFIER,
        "token-21".to_string(),
        1059,
    );
    assert!(r.is_ok());
}

#[test]
fn gate_is_idempotent_and_expiry_flips_it() {
    let mut store = McpOAuthStore::new();
    register_public(&mut store, "client-13");
    let code = issue_code(&mut store, "client-13", "code-16", 1000);
    let token = store
        .exchange(
            "client-13",
            None,
            &code,
            REDIRECT,
            VERIFIER,
            "token-22".to_string(),
            1000,
        )
        .unwrap();
    assert_eq!(token.expires_at, 4600);
    let a = store.validate_token(&token.token, 2000).unwrap();
    let b = store.validate_token(&token.token, 2000).unwrap();
    assert_eq!(a.client_id, b.client_id);
    assert_eq!(a.scope, b.scope);
    assert!(store.validate_token(&token.token, 4599).is_some());
    // from the expiry onward the same token is rejected, like an
    // unknown one, with no other state change
    assert!(store.validate_token(&token.token, 4600).is_none());
    assert!(store.validate_token("unknown-token", 4600).is_none());
    assert!(store.has_token(&token.token));
    assert_eq!(store.token_count(), 1);
}

#[test]
fn bearer_gate_rejects_missing_and_foreign_credentials() {
    let store = McpOAuthStore::new();
    let r = store.validate_bearer(None, 0);
    assert_eq!(r.err(), Some(OAuthError::Unauthorized));
    let r = store.validate_bearer(Some("Basic dXNlcg=="), 0);
    assert_eq!(r.err(), Some(OAuthError::Unauthorized));
    let r = store.validate_bearer(Some("Bearer not-a-token"), 0);
    assert_eq!(r.err(), Some(OAuthError::Unauthorized));
}

#[test]
fn wire_codes_are_coarse() {
    assert_eq!(OAuthError::InvalidClient.wire_code(), "invalid_client");
    assert_eq!(
        OAuthError::InvalidRedirectUri.wire_code(),
        "invalid_redirect_uri"
    );
    assert_eq!(
        OAuthError::UnsupportedChallengeMethod.wire_code(),
        "invalid_request"
    );
    assert_eq!(OAuthError::UnknownRequest.wire_code(), "invalid_request");
    assert_eq!(OAuthError::InvalidGrant.wire_code(), "invalid_grant");
    assert_eq!(OAuthError::Unauthorized.wire_code(), "unauthorized");
}
