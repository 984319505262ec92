//! The protocol laws, proved of the model in [`crate::flow`].
//!
//! Each law is a public proof function; its contract is the
//! statement, its body the proof.

use vstd::prelude::*;

verus! {

use crate::flow::{
    begin_auth_err,
    client_auth_ok,
    code_live,
    exchange_err,
    exchange_store,
    token_live,
    validate_outcome,
    StoreV,
};
use crate::pkce::challenge_of;
use crate::types::OAuthError;

/// A registered client's redirect set gates authorization: beginning
/// an authorization with a redirect URI that is not registered for
/// the client fails with `InvalidRedirectUri`, and with a registered
/// URI, a present challenge, and the `S256` method it is accepted.
pub proof fn lemma_registered_redirect_gates_authorization(
    s: StoreV,
    client_id: Seq<char>,
    redirect_uri: Seq<char>,
    code_challenge: Seq<char>,
    method: Seq<char>,
)
    requires
        s.clients.contains_key(client_id),
    ensures
        !s.clients[client_id].redirect_uris.contains(redirect_uri) ==> begin_auth_err(
            s,
            client_id,
            redirect_uri,
            code_challenge,
            method,
        ) == Some(OAuthError::InvalidRedirectUri),
        s.clients[client_id].redirect_uris.contains(redirect_uri) && method == "S256"@
            && code_challenge.len() > 0 ==> begin_auth_err(
            s,
            client_id,
            redirect_uri,
            code_challenge,
            method,
        ) is None,
{
}

/// An authorization code is redeemable exactly once: after a
/// successful exchange the stored code is consumed, the minted token
/// is the one addition to the token map, and any further exchange
/// presenting the same code fails with `InvalidGrant`, whatever
/// client, secret, redirect URI, verifier, or instant it presents.
pub proof fn lemma_code_single_use(
    s: StoreV,
    client_id: Seq<char>,
    client_secret: Option<Seq<char>>,
    code: Seq<char>,
    redirect_uri: Seq<char>,
    verifier: Seq<char>,
    fresh_token: Seq<char>,
    now: u64,
    client_id2: Seq<char>,
    client_secret2: Option<Seq<char>>,
    redirect_uri2: Seq<char>,
    verifier2: Seq<char>,
    now2: u64,
)
    requires
        exchange_err(s, client_id, client_secret, code, redirect_uri, verifier, now) is None,
    ensures
        exchange_store(s, client_id, code, fresh_token, now).codes[code].consumed,
        exchange_store(s, client_id, code, fresh_token, now).tokens.dom() =~= s.tokens.dom().insert(
            fresh_token,
        ),
        exchange_err(
            exchange_store(s, client_id, code, fresh_token, now),
            client_id2,
            client_secret2,
            code,
            redirect_uri2,
            verifier2,
            now2,
        ) == Some(OAuthError::InvalidGrant),
{
}

/// PKCE correctness: with a live code bound to the presenting client
/// and redirect URI, the exchange succeeds exactly when the `S256`
/// transformation of the presented verifier equals the challenge the
/// code was bound to.
pub proof fn lemma_exchange_pkce_iff(
    s: StoreV,
    client_id: Seq<char>,
    client_secret: Option<Seq<char>>,
    code: Seq<char>,
    redirect_uri: Seq<char>,
    verifier: Seq<char>,
    now: u64,
)
    requires
        s.codes.contains_key(code),
        code_live(s.codes[code], now),
        s.codes[code].client_id == client_id,
        client_auth_ok(s, client_id, client_secret),
        s.codes[code].redirect_uri == redirect_uri,
    ensures
        exchange_err(s, client_id, client_secret, code, redirect_uri, verifier, now) is None
            <==> challenge_of(verifier) == s.codes[code].code_challenge,
{
}

/// An expired authorization code is indistinguishable from an absent
/// one: past its expiry the exchange fails with `InvalidGrant`,
/// exactly as it would had the code never been issued.
pub proof fn lemma_expired_code_as_absent(
    s: StoreV,
    client_id: Seq<char>,
    client_secret: Option<Seq<char>>,
    code: Seq<char>,
    redirect_uri: Seq<char>,
    verifier: Seq<char>,
    now: u64,
)
    requires
        s.codes.contains_key(code),
        now >= s.codes[code].expires_at,
    ensures
        exchange_err(s, client_id, client_secret, code, redirect_uri, verifier, now) == Some(
            OAuthError::InvalidGrant,
        ),
        exchange_err(
            StoreV { codes: s.codes.remove(code), ..s },
            client_id,
            client_secret,
            code,
            redirect_uri,
            verifier,
            now,
        ) == exchange_err(s, client_id, client_secret, code, redirect_uri, verifier, now),
{
}

/// An expired access token is rejected at the protected endpoint,
/// in the same way as a token that was never issued.
pub proof fn lemma_expired_token_as_absent(s: StoreV, token: Seq<char>, now: u64)
    requires
        s.tokens.contains_key(token),
        now >= s.tokens[token].expires_at,
    ensures
        validate_outcome(s, token, now) is None,
        validate_outcome(StoreV { tokens: s.tokens.remove(token), ..s }, token, now)
            == validate_outcome(s, token, now),
{
}

/// The token gate is idempotent: validation only reads the store, so
/// at any two instants before a token's expiry the decision is the
/// same admission with the same context, and from the expiry onward
/// the decision flips to rejection with no other state change.
pub proof fn lemma_validate_idempotent(s: StoreV, token: Seq<char>, now1: u64, now2: u64)
    requires
        s.tokens.contains_key(token),
    ensures
        token_live(s.tokens[token], now1) && token_live(s.tokens[token], now2)
            ==> validate_outcome(s, token, now1) == validate_outcome(s, token, now2)
            && validate_outcome(s, token, now1) == Some(s.tokens[token]),
        !token_live(s.tokens[token], now1) ==> validate_outcome(s, token, now1) is None,
{
}

} // verus!
