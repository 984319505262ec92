//! Entity types of the authorization server and their mathematical views.
//!
//! Each executable entity (client, pending authorization request,
//! authorization code, access token) has a ghost view struct whose
//! fields are `Seq<char>` and plain scalars; all contracts are stated
//! over these views.

use vstd::prelude::*;

verus! {

/// The error taxonomy of the authorization server.
#[derive(Clone, Copy, Debug, PartialEq, Eq, Structural)]
pub enum OAuthError {
    /// Unknown client id, or client credentials that do not match.
    InvalidClient,
    /// A redirect URI that is malformed or not registered for the client.
    InvalidRedirectUri,
    /// A code challenge method other than `S256`, or a missing challenge.
    UnsupportedChallengeMethod,
    /// A stale or foreign request id presented at approval time.
    UnknownRequest,
    /// A bad, expired, reused, or PKCE-mismatched code, or a wrong
    /// redirect URI at exchange time.
    InvalidGrant,
    /// A missing, unknown, or expired bearer token at the protected gate.
    Unauthorized,
}

impl OAuthError {
    /// The coarse machine-readable code sent on the wire; granular
    /// internal reasons are never disclosed to the caller.
    pub fn wire_code(&self) -> (r: &'static str)
        ensures
            *self == OAuthError::InvalidClient ==> r@ == "invalid_client"@,
            *self == OAuthError::InvalidRedirectUri ==> r@ == "invalid_redirect_uri"@,
            *self == OAuthError::UnsupportedChallengeMethod ==> r@ == "invalid_request"@,
            *self == OAuthError::UnknownRequest ==> r@ == "invalid_request"@,
            *self == OAuthError::InvalidGrant ==> r@ == "invalid_grant"@,
            *self == OAuthError::Unauthorized ==> r@ == "unauthorized"@,
    {
        match self {
            OAuthError::InvalidClient => "invalid_client",
            OAuthError::InvalidRedirectUri => "invalid_redirect_uri",
            OAuthError::UnsupportedChallengeMethod => "invalid_request",
            OAuthError::UnknownRequest => "invalid_request",
            OAuthError::InvalidGrant => "invalid_grant",
            OAuthError::Unauthorized => "unauthorized",
        }
    }
}

/// Whether a client holds a secret (confidential) or not (public).
#[derive(Clone, Copy, Debug, PartialEq, Eq, Structural)]
pub enum ClientType {
    Public,
    Confidential,
}

/// A registered client.
#[derive(Debug)]
pub struct Client {
    pub client_id: String,
    pub client_secret: Option<String>,
    pub redirect_uris: Vec<String>,
    pub registration_time: u64,
}

/// View of a [`Client`].
#[verifier::ext_equal]
pub struct ClientV {
    pub client_id: Seq<char>,
    pub client_secret: Option<Seq<char>>,
    pub redirect_uris: Seq<Seq<char>>,
    pub registration_time: u64,
}

impl View for Client {
    type V = ClientV;

    open spec fn view(&self) -> ClientV {
        ClientV {
            client_id: self.client_id@,
            client_secret: match self.client_secret {
                Some(s) => Some(s@),
                None => None,
            },
            redirect_uris: self.redirect_uris.deep_view(),
            registration_time: self.registration_time,
        }
    }
}

/// A pending authorization request awaiting the user's consent decision.
#[derive(Debug)]
pub struct AuthRequest {
    pub state: String,
    pub client_id: String,
    pub redirect_uri: String,
    pub code_challenge: String,
    pub code_challenge_method: String,
    pub scope: String,
    pub requested_at: u64,
}

/// View of an [`AuthRequest`].
#[verifier::ext_equal]
pub struct AuthRequestV {
    pub state: Seq<char>,
    pub client_id: Seq<char>,
    pub redirect_uri: Seq<char>,
    pub code_challenge: Seq<char>,
    pub code_challenge_method: Seq<char>,
    pub scope: Seq<char>,
    pub requested_at: u64,
}

impl View for AuthRequest {
    type V = AuthRequestV;

    open spec fn view(&self) -> AuthRequestV {
        AuthRequestV {
            state: self.state@,
            client_id: self.client_id@,
            redirect_uri: self.redirect_uri@,
            code_challenge: self.code_challenge@,
            code_challenge_method: self.code_challenge_method@,
            scope: self.scope@,
            requested_at: self.requested_at,
        }
    }
}

/// A single-use authorization code bound to its originating request.
#[derive(Debug)]
pub struct AuthCode {
    pub code: String,
    pub client_id: String,
    pub redirect_uri: String,
    pub code_challenge: String,
    pub code_challenge_method: String,
    pub scope: String,
    pub issued_at: u64,
    pub expires_at: u64,
    pub consumed: bool,
}

/// View of an [`AuthCode`].
#[verifier::ext_equal]
pub struct AuthCodeV {
    pub code: Seq<char>,
    pub client_id: Seq<char>,
    pub redirect_uri: Seq<char>,
    pub code_challenge: Seq<char>,
    pub code_challenge_method: Seq<char>,
    pub scope: Seq<char>,
    pub issued_at: u64,
    pub expires_at: u64,
    pub consumed: bool,
}

impl View for AuthCode {
    type V = AuthCodeV;

    open spec fn view(&self) -> AuthCodeV {
        AuthCodeV {
            code: self.code@,
            client_id: self.client_id@,
            redirect_uri: self.redirect_uri@,
            code_challenge: self.code_challenge@,
            code_challenge_method: self.code_challenge_method@,
            scope: self.scope@,
            issued_at: self.issued_at,
            expires_at: self.expires_at,
            consumed: self.consumed,
        }
    }
}

/// A bearer access token.
#[derive(Debug)]
pub struct AccessToken {
    pub token: String,
    pub client_id: String,
    pub scope: String,
    pub issued_at: u64,
    pub expires_at: u64,
}

/// View of an [`AccessToken`].
#[verifier::ext_equal]
pub struct AccessTokenV {
    pub token: Seq<char>,
    pub client_id: Seq<char>,
    pub scope: Seq<char>,
    pub issued_at: u64,
    pub expires_at: u64,
}

impl View for AccessToken {
    type V = AccessTokenV;

    open spec fn view(&self) -> AccessTokenV {
        AccessTokenV {
            token: self.token@,
            client_id: self.client_id@,
            scope: self.scope@,
            issued_at: self.issued_at,
            expires_at: self.expires_at,
        }
    }
}

/// Context attached to an admitted protected call: who the caller is
/// and which scope was granted.
#[derive(Debug)]
pub struct TokenContext {
    pub client_id: String,
    pub scope: String,
}

/// View of a [`TokenContext`].
#[verifier::ext_equal]
pub struct TokenContextV {
    pub client_id: Seq<char>,
    pub scope: Seq<char>,
}

impl View for TokenContext {
    type V = TokenContextV;

    open spec fn view(&self) -> TokenContextV {
        TokenContextV { client_id: self.client_id@, scope: self.scope@ }
    }
}

/// The outcome of a consent decision: where to send the user agent.
/// `code` is `Some` exactly when the user allowed the request.
#[derive(Debug)]
pub struct ApprovalRedirect {
    pub redirect_uri: String,
    pub code: Option<String>,
    pub state: String,
}

/// View of an [`ApprovalRedirect`].
#[verifier::ext_equal]
pub struct ApprovalRedirectV {
    pub redirect_uri: Seq<char>,
    pub code: Option<Seq<char>>,
    pub state: Seq<char>,
}

impl View for ApprovalRedirect {
    type V = ApprovalRedirectV;

    open spec fn view(&self) -> ApprovalRedirectV {
        ApprovalRedirectV {
            redirect_uri: self.redirect_uri@,
            code: match self.code {
                Some(c) => Some(c@),
                None => None,
            },
            state: self.state@,
        }
    }
}

} // verus!
