//! An OAuth 2.0 style authorization server core: dynamic client
//! registration, an authorization-code-plus-PKCE consent flow, token
//! issuance, and a bearer-token validation gate, over an in-memory
//! credential store.

pub mod strutil;
pub mod types;
pub mod pkce;
pub mod table;
pub mod uri;
pub mod flow;
pub mod store;
pub mod laws;
pub mod discovery;
