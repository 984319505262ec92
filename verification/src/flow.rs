//! The mathematical model of the authorization server's operations.
//!
//! Every operation of the store is specified against the functions
//! here: which error an input earns, if and only if, and what the
//! store and the minted credential look like on success. The laws of
//! the protocol are proved of these functions.

use vstd::prelude::*;

verus! {

use crate::types::{AccessTokenV, AuthCodeV, AuthRequestV, ClientV, OAuthError};
use crate::strutil::sat_add64;
use crate::pkce::challenge_of;
use crate::uri::{bearer_of, valid_redirect_uri};

/// The character view of an optional string slice.
pub open spec fn opt_str_view(s: Option<&str>) -> Option<Seq<char>> {
    match s {
        Some(x) => Some(x@),
        None => None,
    }
}

/// Lifetime of an authorization code, in seconds.
pub const CODE_TTL_SECONDS: u64 = 60;

/// Lifetime of an access token, in seconds.
pub const TOKEN_TTL_SECONDS: u64 = 3600;

/// View of the whole credential store: the four entity kinds, each
/// keyed by its opaque identifier.
#[verifier::ext_equal]
pub struct StoreV {
    pub clients: Map<Seq<char>, ClientV>,
    pub requests: Map<Seq<char>, AuthRequestV>,
    pub codes: Map<Seq<char>, AuthCodeV>,
    pub tokens: Map<Seq<char>, AccessTokenV>,
}

/// Registration is refused exactly when no redirect URI is supplied
/// or some supplied URI is not acceptable.
pub open spec fn register_err(uris: Seq<Seq<char>>) -> Option<OAuthError> {
    if uris.len() == 0 || (exists|i: int| 0 <= i < uris.len() && !valid_redirect_uri(uris[i])) {
        Some(OAuthError::InvalidRedirectUri)
    } else {
        None
    }
}

/// The validation outcome of an incoming authorization request:
/// the client must exist, the redirect URI must be exactly one of its
/// registered URIs, the challenge must be present, and the only
/// supported challenge method is `S256`.
pub open spec fn begin_auth_err(
    s: StoreV,
    client_id: Seq<char>,
    redirect_uri: Seq<char>,
    code_challenge: Seq<char>,
    method: Seq<char>,
) -> Option<OAuthError> {
    if !s.clients.contains_key(client_id) {
        Some(OAuthError::InvalidClient)
    } else if !s.clients[client_id].redirect_uris.contains(redirect_uri) {
        Some(OAuthError::InvalidRedirectUri)
    } else if method != "S256"@ || code_challenge.len() == 0 {
        Some(OAuthError::UnsupportedChallengeMethod)
    } else {
        None
    }
}

/// The pending request recorded on a valid authorization request.
pub open spec fn pending_request(
    client_id: Seq<char>,
    redirect_uri: Seq<char>,
    state: Seq<char>,
    code_challenge: Seq<char>,
    method: Seq<char>,
    scope: Seq<char>,
    now: u64,
) -> AuthRequestV {
    AuthRequestV {
        state: state,
        client_id: client_id,
        redirect_uri: redirect_uri,
        code_challenge: code_challenge,
        code_challenge_method: method,
        scope: scope,
        requested_at: now,
    }
}

/// Consent is accepted exactly for a request id with a pending request.
pub open spec fn approve_err(s: StoreV, request_id: Seq<char>) -> Option<OAuthError> {
    if !s.requests.contains_key(request_id) {
        Some(OAuthError::UnknownRequest)
    } else {
        None
    }
}

/// The authorization code minted on approval, bound to the original
/// request's parameters, unconsumed and short-lived.
pub open spec fn minted_code(r: AuthRequestV, fresh_code: Seq<char>, now: u64) -> AuthCodeV {
    AuthCodeV {
        code: fresh_code,
        client_id: r.client_id,
        redirect_uri: r.redirect_uri,
        code_challenge: r.code_challenge,
        code_challenge_method: r.code_challenge_method,
        scope: r.scope,
        issued_at: now,
        expires_at: sat_add64(now, CODE_TTL_SECONDS),
        consumed: false,
    }
}

/// Whether a code can still be redeemed: not yet expired, never
/// consumed. An expired or consumed code is as good as absent.
pub open spec fn code_live(c: AuthCodeV, now: u64) -> bool {
    now < c.expires_at && !c.consumed
}

/// Whether a token is still accepted at the protected gate.
pub open spec fn token_live(t: AccessTokenV, now: u64) -> bool {
    now < t.expires_at
}

/// Whether the presented client credentials are acceptable: the
/// client is registered, and a confidential client presents its
/// secret.
pub open spec fn client_auth_ok(
    s: StoreV,
    client_id: Seq<char>,
    client_secret: Option<Seq<char>>,
) -> bool {
    s.clients.contains_key(client_id) && match s.clients[client_id].client_secret {
        Some(registered) => client_secret == Some(registered),
        None => true,
    }
}

/// The outcome of a token exchange: `None` means the exchange
/// succeeds; otherwise the coarse error owed to the caller. Granular
/// reasons collapse to `InvalidGrant`, except bad client credentials.
pub open spec fn exchange_err(
    s: StoreV,
    client_id: Seq<char>,
    client_secret: Option<Seq<char>>,
    code: Seq<char>,
    redirect_uri: Seq<char>,
    verifier: Seq<char>,
    now: u64,
) -> Option<OAuthError> {
    if !s.codes.contains_key(code) || !code_live(s.codes[code], now) {
        Some(OAuthError::InvalidGrant)
    } else if s.codes[code].client_id != client_id || !client_auth_ok(
        s,
        client_id,
        client_secret,
    ) {
        Some(OAuthError::InvalidClient)
    } else if s.codes[code].redirect_uri != redirect_uri {
        Some(OAuthError::InvalidGrant)
    } else if challenge_of(verifier) != s.codes[code].code_challenge {
        Some(OAuthError::InvalidGrant)
    } else {
        None
    }
}

/// The access token minted by a successful exchange.
pub open spec fn minted_token(
    s: StoreV,
    client_id: Seq<char>,
    code: Seq<char>,
    fresh_token: Seq<char>,
    now: u64,
) -> AccessTokenV {
    AccessTokenV {
        token: fresh_token,
        client_id: client_id,
        scope: s.codes[code].scope,
        issued_at: now,
        expires_at: sat_add64(now, TOKEN_TTL_SECONDS),
    }
}

/// The store after a successful exchange: the code is atomically
/// consumed and the fresh token recorded; nothing else moves.
pub open spec fn exchange_store(
    s: StoreV,
    client_id: Seq<char>,
    code: Seq<char>,
    fresh_token: Seq<char>,
    now: u64,
) -> StoreV {
    StoreV {
        codes: s.codes.insert(code, AuthCodeV { consumed: true, ..s.codes[code] }),
        tokens: s.tokens.insert(fresh_token, minted_token(s, client_id, code, fresh_token, now)),
        ..s
    }
}

/// The outcome of validating a bearer token at the protected gate:
/// the token's record when it is known and still live, and nothing
/// otherwise — an expired token and an absent one are
/// indistinguishable to the caller.
pub open spec fn validate_outcome(s: StoreV, token: Seq<char>, now: u64) -> Option<AccessTokenV> {
    if s.tokens.contains_key(token) && token_live(s.tokens[token], now) {
        Some(s.tokens[token])
    } else {
        None
    }
}

/// The outcome of the whole protected gate, from the raw
/// authorization header: a missing header, a non-bearer credential,
/// an unknown token, and an expired token are all rejected alike.
pub open spec fn gate_outcome(s: StoreV, header: Option<Seq<char>>, now: u64) -> Option<
    AccessTokenV,
> {
    match header {
        None => None,
        Some(h) => match bearer_of(h) {
            None => None,
            Some(t) => validate_outcome(s, t, now),
        },
    }
}

} // verus!
