//! The credential store and the operations of the authorization
//! server: client registration, the two-phase consent flow, the
//! code-for-token exchange, and the bearer-token gate.
//!
//! Fresh identifiers (client ids, secrets, request ids, codes,
//! tokens) are opaque unguessable values drawn by the caller from a
//! cryptographically secure random source; each operation demands
//! that the identifier it is about to record is not in use, and the
//! store verifies nothing else about their shape.

use vstd::prelude::*;

verus! {

use crate::flow::{
    approve_err,
    begin_auth_err,
    exchange_err,
    exchange_store,
    gate_outcome,
    minted_code,
    minted_token,
    opt_str_view,
    pending_request,
    register_err,
    validate_outcome,
    StoreV,
    CODE_TTL_SECONDS,
    TOKEN_TTL_SECONDS,
};
use crate::pkce::compute_challenge;
use crate::strutil::{const_time_str_eq, sat_add, str_eq};
use crate::table::Table;
use crate::types::{
    AccessToken,
    AccessTokenV,
    ApprovalRedirect,
    AuthCode,
    AuthCodeV,
    AuthRequest,
    AuthRequestV,
    Client,
    ClientType,
    ClientV,
    OAuthError,
    TokenContext,
};
use crate::uri::{check_redirect_uri, extract_bearer};

/// The process-wide credential store: registered clients, pending
/// authorization requests, issued codes, and issued tokens, each
/// addressed by its opaque identifier.
pub struct McpOAuthStore {
    clients: Table<Client>,
    requests: Table<AuthRequest>,
    codes: Table<AuthCode>,
    tokens: Table<AccessToken>,
}

impl View for McpOAuthStore {
    type V = StoreV;

    closed spec fn view(&self) -> StoreV {
        StoreV {
            clients: self.clients@,
            requests: self.requests@,
            codes: self.codes@,
            tokens: self.tokens@,
        }
    }
}

impl McpOAuthStore {
    /// The tables hold each identifier at most once.
    pub closed spec fn wf(self) -> bool {
        self.clients.wf() && self.requests.wf() && self.codes.wf() && self.tokens.wf()
    }

    /// An empty store.
    pub fn new() -> (s: Self)
        ensures
            s.wf(),
            s@.clients == Map::<Seq<char>, ClientV>::empty(),
            s@.requests == Map::<Seq<char>, AuthRequestV>::empty(),
            s@.codes == Map::<Seq<char>, AuthCodeV>::empty(),
            s@.tokens == Map::<Seq<char>, AccessTokenV>::empty(),
    {
        McpOAuthStore {
            clients: Table::new(),
            requests: Table::new(),
            codes: Table::new(),
            tokens: Table::new(),
        }
    }

    /// Whether a client id is registered.
    pub fn has_client(&self, client_id: &str) -> (r: bool)
        requires
            self.wf(),
        ensures
            r == self@.clients.contains_key(client_id@),
    {
        self.clients.contains(client_id)
    }

    /// Whether a request id has a pending authorization request.
    pub fn has_request(&self, request_id: &str) -> (r: bool)
        requires
            self.wf(),
        ensures
            r == self@.requests.contains_key(request_id@),
    {
        self.requests.contains(request_id)
    }

    /// Whether an authorization code value is recorded.
    pub fn has_code(&self, code: &str) -> (r: bool)
        requires
            self.wf(),
        ensures
            r == self@.codes.contains_key(code@),
    {
        self.codes.contains(code)
    }

    /// Whether an access token value is recorded.
    pub fn has_token(&self, token: &str) -> (r: bool)
        requires
            self.wf(),
        ensures
            r == self@.tokens.contains_key(token@),
    {
        self.tokens.contains(token)
    }

    /// How many access tokens are recorded, live or expired.
    pub fn token_count(&self) -> (n: usize)
        requires
            self.wf(),
        ensures
            n == self@.tokens.dom().len(),
    {
        self.tokens.len()
    }

    /// Registers a client. Succeeds exactly when at least one
    /// redirect URI is supplied and every one is acceptable; the new
    /// client record, secret included, is returned to the caller this
    /// one time. `fresh_client_id` and `fresh_client_secret` come
    /// from the caller's random source; the id must be unused.
    pub fn register(
        &mut self,
        redirect_uris: Vec<String>,
        client_type: ClientType,
        fresh_client_id: String,
        fresh_client_secret: String,
        now: u64,
    ) -> (r: Result<Client, OAuthError>)
        requires
            old(self).wf(),
            !old(self)@.clients.contains_key(fresh_client_id@),
        ensures
            final(self).wf(),
            (match r {
                Ok(c) => {
                    &&& register_err(redirect_uris.deep_view()) is None
                    &&& c@.client_id == fresh_client_id@
                    &&& c@.client_secret == (if client_type == ClientType::Confidential {
                        Some(fresh_client_secret@)
                    } else {
                        None::<Seq<char>>
                    })
                    &&& c@.redirect_uris == redirect_uris.deep_view()
                    &&& c@.registration_time == now
                    &&& final(self)@.clients == old(self)@.clients.insert(fresh_client_id@, c@)
                    &&& final(self)@.requests == old(self)@.requests
                    &&& final(self)@.codes == old(self)@.codes
                    &&& final(self)@.tokens == old(self)@.tokens
                },
                Err(e) => {
                    &&& register_err(redirect_uris.deep_view()) == Some(e)
                    &&& *final(self) == *old(self)
                },
            }),
    {
        let n: usize = redirect_uris.len();
        if n == 0 {
            return Err(OAuthError::InvalidRedirectUri);
        }
        let mut i: usize = 0;
        while i < n
            invariant
                *self == *old(self),
                old(self).wf(),
                n == redirect_uris@.len(),
                i <= n,
                forall|j: int|
                    0 <= j < i ==> crate::uri::valid_redirect_uri(redirect_uris.deep_view()[j]),
            decreases n - i,
        {
            if !check_redirect_uri(redirect_uris[i].as_str()) {
                proof {
                    assert(redirect_uris.deep_view()[i as int] == redirect_uris@[i as int]@);
                }
                return Err(OAuthError::InvalidRedirectUri);
            }
            i = i + 1;
        }
        let uris_copy: Vec<String> = redirect_uris.clone();
        proof {
            assert forall|j: int|
                0 <= j < redirect_uris@.len() implies uris_copy@[j]@ == redirect_uris@[j]@ by {
                assert(cloned::<String>(redirect_uris@[j], uris_copy@[j]));
            }
            assert(uris_copy.deep_view() =~= redirect_uris.deep_view());
        }
        let secret_stored: Option<String> = match client_type {
            ClientType::Confidential => Some(fresh_client_secret.clone()),
            ClientType::Public => None,
        };
        let key: String = fresh_client_id.clone();
        let stored = Client {
            client_id: fresh_client_id.clone(),
            client_secret: secret_stored,
            redirect_uris: uris_copy,
            registration_time: now,
        };
        let secret_returned: Option<String> = match client_type {
            ClientType::Confidential => Some(fresh_client_secret),
            ClientType::Public => None,
        };
        let returned = Client {
            client_id: fresh_client_id,
            client_secret: secret_returned,
            redirect_uris: redirect_uris,
            registration_time: now,
        };
        proof {
            assert(stored@ =~= returned@);
        }
        self.clients.insert_fresh(key, stored);
        Ok(returned)
    }

    /// Begins an authorization transaction: validates the request and
    /// records it as pending under `fresh_request_id`, which is
    /// returned as the opaque handle for the consent prompt. Nothing
    /// beyond the request id leaks toward the user agent. Failures
    /// are owed directly to the caller, never by redirect.
    pub fn begin_authorization(
        &mut self,
        client_id: &str,
        redirect_uri: &str,
        state: &str,
        code_challenge: &str,
        code_challenge_method: &str,
        scope: &str,
        fresh_request_id: String,
        now: u64,
    ) -> (r: Result<String, OAuthError>)
        requires
            old(self).wf(),
            !old(self)@.requests.contains_key(fresh_request_id@),
        ensures
            final(self).wf(),
            (match r {
                Ok(rid) => {
                    &&& begin_auth_err(
                        old(self)@,
                        client_id@,
                        redirect_uri@,
                        code_challenge@,
                        code_challenge_method@,
                    ) is None
                    &&& rid@ == fresh_request_id@
                    &&& final(self)@.requests == old(self)@.requests.insert(
                        fresh_request_id@,
                        pending_request(
                            client_id@,
                            redirect_uri@,
                            state@,
                            code_challenge@,
                            code_challenge_method@,
                            scope@,
                            now,
                        ),
                    )
                    &&& final(self)@.clients == old(self)@.clients
                    &&& final(self)@.codes == old(self)@.codes
                    &&& final(self)@.tokens == old(self)@.tokens
                },
                Err(e) => {
                    &&& begin_auth_err(
                        old(self)@,
                        client_id@,
                        redirect_uri@,
                        code_challenge@,
                        code_challenge_method@,
                    ) == Some(e)
                    &&& *final(self) == *old(self)
                },
            }),
    {
        let client = match self.clients.get(client_id) {
            Some(c) => c,
            None => {
                return Err(OAuthError::InvalidClient);
            },
        };
        let n: usize = client.redirect_uris.len();
        let mut found: bool = false;
        let mut i: usize = 0;
        while i < n
            invariant
                n == client.redirect_uris@.len(),
                i <= n,
                found ==> client@.redirect_uris.contains(redirect_uri@),
                !found ==> forall|j: int| 0 <= j < i ==> client@.redirect_uris[j] != redirect_uri@,
            decreases n - i,
        {
            if str_eq(client.redirect_uris[i].as_str(), redirect_uri) {
                proof {
                    assert(client@.redirect_uris[i as int] == redirect_uri@);
                }
                found = true;
            }
            i = i + 1;
        }
        if !found {
            proof {
                assert(!client@.redirect_uris.contains(redirect_uri@));
            }
            return Err(OAuthError::InvalidRedirectUri);
        }
        if !str_eq(code_challenge_method, "S256") || code_challenge.is_empty() {
            return Err(OAuthError::UnsupportedChallengeMethod);
        }
        let req = AuthRequest {
            state: state.to_owned(),
            client_id: client_id.to_owned(),
            redirect_uri: redirect_uri.to_owned(),
            code_challenge: code_challenge.to_owned(),
            code_challenge_method: code_challenge_method.to_owned(),
            scope: scope.to_owned(),
            requested_at: now,
        };
        proof {
            assert(req@ =~= pending_request(
                client_id@,
                redirect_uri@,
                state@,
                code_challenge@,
                code_challenge_method@,
                scope@,
                now,
            ));
        }
        let rid: String = fresh_request_id.clone();
        self.requests.insert_fresh(fresh_request_id, req);
        Ok(rid)
    }

    /// Consumes a consent decision for a pending request. On denial
    /// the pending request is dropped and the user agent is sent back
    /// with an access-denied signal; on approval a fresh single-use
    /// code bound to the request's parameters is recorded. Either way
    /// the request id can never produce a second code. The `state`
    /// value is echoed verbatim.
    pub fn approve(&mut self, request_id: &str, approved: bool, fresh_code: String, now: u64) -> (r:
        Result<ApprovalRedirect, OAuthError>)
        requires
            old(self).wf(),
            approved ==> !old(self)@.codes.contains_key(fresh_code@),
        ensures
            final(self).wf(),
            (match r {
                Ok(red) => {
                    &&& approve_err(old(self)@, request_id@) is None
                    &&& red@.redirect_uri == old(self)@.requests[request_id@].redirect_uri
                    &&& red@.state == old(self)@.requests[request_id@].state
                    &&& final(self)@.requests == old(self)@.requests.remove(request_id@)
                    &&& final(self)@.clients == old(self)@.clients
                    &&& final(self)@.tokens == old(self)@.tokens
                    &&& (if approved {
                        red@.code == Some(fresh_code@) && final(self)@.codes == old(
                            self,
                        )@.codes.insert(
                            fresh_code@,
                            minted_code(old(self)@.requests[request_id@], fresh_code@, now),
                        )
                    } else {
                        red@.code is None && final(self)@.codes == old(self)@.codes
                    })
                },
                Err(e) => {
                    &&& approve_err(old(self)@, request_id@) == Some(e)
                    &&& *final(self) == *old(self)
                },
            }),
    {
        let req = match self.requests.remove(request_id) {
            Some(r) => r,
            None => {
                return Err(OAuthError::UnknownRequest);
            },
        };
        if approved {
            let key: String = fresh_code.clone();
            let entry = AuthCode {
                code: fresh_code.clone(),
                client_id: req.client_id,
                redirect_uri: req.redirect_uri.clone(),
                code_challenge: req.code_challenge,
                code_challenge_method: req.code_challenge_method,
                scope: req.scope,
                issued_at: now,
                expires_at: sat_add(now, CODE_TTL_SECONDS),
                consumed: false,
            };
            proof {
                assert(entry@ =~= minted_code(
                    old(self)@.requests[request_id@],
                    fresh_code@,
                    now,
                ));
            }
            self.codes.insert_fresh(key, entry);
            Ok(
                ApprovalRedirect {
                    redirect_uri: req.redirect_uri,
                    code: Some(fresh_code),
                    state: req.state,
                },
            )
        } else {
            Ok(ApprovalRedirect { redirect_uri: req.redirect_uri, code: None, state: req.state })
        }
    }

    /// Exchanges an authorization code, under its PKCE verifier, for
    /// a fresh bearer token. The code must be known, unexpired, and
    /// never consumed; the client must be the one the code was bound
    /// to (with its secret, when confidential); the redirect URI must
    /// match the bound one exactly; and the `S256` transformation of
    /// the verifier must equal the bound challenge. On success the
    /// code is atomically consumed, so a second redemption of the
    /// same code fails. Every granular failure collapses to a coarse
    /// error code.
    pub fn exchange(
        &mut self,
        client_id: &str,
        client_secret: Option<&str>,
        code: &str,
        redirect_uri: &str,
        code_verifier: &str,
        fresh_token: String,
        now: u64,
    ) -> (r: Result<AccessToken, OAuthError>)
        requires
            old(self).wf(),
            !old(self)@.tokens.contains_key(fresh_token@),
        ensures
            final(self).wf(),
            (match r {
                Ok(tok) => {
                    &&& exchange_err(
                        old(self)@,
                        client_id@,
                        opt_str_view(client_secret),
                        code@,
                        redirect_uri@,
                        code_verifier@,
                        now,
                    ) is None
                    &&& tok@ == minted_token(old(self)@, client_id@, code@, fresh_token@, now)
                    &&& final(self)@ == exchange_store(
                        old(self)@,
                        client_id@,
                        code@,
                        fresh_token@,
                        now,
                    )
                },
                Err(e) => {
                    &&& exchange_err(
                        old(self)@,
                        client_id@,
                        opt_str_view(client_secret),
                        code@,
                        redirect_uri@,
                        code_verifier@,
                        now,
                    ) == Some(e)
                    &&& *final(self) == *old(self)
                },
            }),
    {
        let cod = match self.codes.get(code) {
            Some(c) => c,
            None => {
                return Err(OAuthError::InvalidGrant);
            },
        };
        if now >= cod.expires_at || cod.consumed {
            return Err(OAuthError::InvalidGrant);
        }
        if !str_eq(cod.client_id.as_str(), client_id) {
            return Err(OAuthError::InvalidClient);
        }
        let cli = match self.clients.get(client_id) {
            Some(c) => c,
            None => {
                return Err(OAuthError::InvalidClient);
            },
        };
        let secret_ok: bool = match (&cli.client_secret, client_secret) {
            (None, _) => true,
            (Some(registered), Some(given)) => str_eq(registered.as_str(), given),
            (Some(_), None) => false,
        };
        if !secret_ok {
            return Err(OAuthError::InvalidClient);
        }
        if !str_eq(cod.redirect_uri.as_str(), redirect_uri) {
            return Err(OAuthError::InvalidGrant);
        }
        let computed: String = compute_challenge(code_verifier);
        if !const_time_str_eq(computed.as_str(), cod.code_challenge.as_str()) {
            return Err(OAuthError::InvalidGrant);
        }
        let scope_stored: String = cod.scope.clone();
        let scope_returned: String = cod.scope.clone();
        let consumed_entry = AuthCode {
            code: cod.code.clone(),
            client_id: cod.client_id.clone(),
            redirect_uri: cod.redirect_uri.clone(),
            code_challenge: cod.code_challenge.clone(),
            code_challenge_method: cod.code_challenge_method.clone(),
            scope: cod.scope.clone(),
            issued_at: cod.issued_at,
            expires_at: cod.expires_at,
            consumed: true,
        };
        self.codes.replace(code, consumed_entry);
        let expires_at: u64 = sat_add(now, TOKEN_TTL_SECONDS);
        let stored = AccessToken {
            token: fresh_token.clone(),
            client_id: client_id.to_owned(),
            scope: scope_stored,
            issued_at: now,
            expires_at: expires_at,
        };
        let returned = AccessToken {
            token: fresh_token.clone(),
            client_id: client_id.to_owned(),
            scope: scope_returned,
            issued_at: now,
            expires_at: expires_at,
        };
        proof {
            assert(stored@ =~= minted_token(old(self)@, client_id@, code@, fresh_token@, now));
            assert(returned@ =~= stored@);
        }
        self.tokens.insert_fresh(fresh_token, stored);
        proof {
            assert(self@ =~= exchange_store(old(self)@, client_id@, code@, fresh_token@, now));
        }
        Ok(returned)
    }

    /// Validates a bearer token value at the protected gate. Reads
    /// only; an unknown token and an expired one are rejected alike.
    pub fn validate_token(&self, token: &str, now: u64) -> (r: Option<TokenContext>)
        requires
            self.wf(),
        ensures
            (match r {
                Some(ctx) => validate_outcome(self@, token@, now) matches Some(t)
                    && ctx@.client_id == t.client_id && ctx@.scope == t.scope,
                None => validate_outcome(self@, token@, now) is None,
            }),
    {
        match self.tokens.get(token) {
            Some(t) => {
                if now < t.expires_at {
                    Some(TokenContext { client_id: t.client_id.clone(), scope: t.scope.clone() })
                } else {
                    None
                }
            },
            None => None,
        }
    }

    /// The whole protected gate: takes the request's authorization
    /// header, if any, and either admits the call with the token's
    /// context or rejects it uniformly as unauthorized.
    pub fn validate_bearer(&self, authorization: Option<&str>, now: u64) -> (r: Result<
        TokenContext,
        OAuthError,
    >)
        requires
            self.wf(),
        ensures
            (match r {
                Ok(ctx) => gate_outcome(self@, opt_str_view(authorization), now) matches Some(t)
                    && ctx@.client_id == t.client_id && ctx@.scope == t.scope,
                Err(e) => e == OAuthError::Unauthorized && gate_outcome(
                    self@,
                    opt_str_view(authorization),
                    now,
                ) is None,
            }),
    {
        let header = match authorization {
            Some(h) => h,
            None => {
                return Err(OAuthError::Unauthorized);
            },
        };
        let token = match extract_bearer(header) {
            Some(t) => t,
            None => {
                return Err(OAuthError::Unauthorized);
            },
        };
        match self.validate_token(token.as_str(), now) {
            Some(ctx) => Ok(ctx),
            None => Err(OAuthError::Unauthorized),
        }
    }
}

} // verus!
