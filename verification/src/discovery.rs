//! The discovery document advertising the server's endpoints, and
//! the redirect URL carried back to the user agent after consent.

use vstd::prelude::*;

verus! {

use vstd::string::StringExecFns;
use crate::types::ApprovalRedirect;

/// The authorization-server metadata advertised under the well-known
/// discovery path.
pub struct ServerMetadata {
    pub issuer: String,
    pub authorization_endpoint: String,
    pub token_endpoint: String,
    pub registration_endpoint: String,
    pub code_challenge_methods_supported: Vec<String>,
    pub grant_types_supported: Vec<String>,
    pub response_types_supported: Vec<String>,
}

/// Builds the discovery document for a server reachable at `issuer`:
/// the endpoint locations, and the single supported challenge method,
/// grant type, and response type.
pub fn server_metadata(issuer: &str) -> (m: ServerMetadata)
    ensures
        m.issuer@ == issuer@,
        m.authorization_endpoint@ == issuer@ + "/authorize"@,
        m.token_endpoint@ == issuer@ + "/token"@,
        m.registration_endpoint@ == issuer@ + "/register"@,
        m.code_challenge_methods_supported@.len() == 1
            && m.code_challenge_methods_supported@[0]@ == "S256"@,
        m.grant_types_supported@.len() == 1 && m.grant_types_supported@[0]@
            == "authorization_code"@,
        m.response_types_supported@.len() == 1 && m.response_types_supported@[0]@ == "code"@,
{
    let mut methods: Vec<String> = Vec::new();
    methods.push(String::from_str("S256"));
    let mut grants: Vec<String> = Vec::new();
    grants.push(String::from_str("authorization_code"));
    let mut responses: Vec<String> = Vec::new();
    responses.push(String::from_str("code"));
    ServerMetadata {
        issuer: issuer.to_owned(),
        authorization_endpoint: issuer.to_owned().concat("/authorize"),
        token_endpoint: issuer.to_owned().concat("/token"),
        registration_endpoint: issuer.to_owned().concat("/register"),
        code_challenge_methods_supported: methods,
        grant_types_supported: grants,
        response_types_supported: responses,
    }
}

impl ApprovalRedirect {
    /// The full redirect URL: the bound redirect URI carrying either
    /// the minted code or the access-denied signal, and the verbatim
    /// `state` the client supplied.
    pub fn location(&self) -> (r: String)
        ensures
            (match self@.code {
                Some(c) => r@ == self@.redirect_uri + "?code="@ + c + "&state="@ + self@.state,
                None => r@ == self@.redirect_uri + "?error=access_denied&state="@ + self@.state,
            }),
    {
        match &self.code {
            Some(c) => {
                let mut out: String = self.redirect_uri.clone();
                out.append("?code=");
                out.append(c.as_str());
                out.append("&state=");
                out.append(self.state.as_str());
                out
            },
            None => {
                let mut out: String = self.redirect_uri.clone();
                out.append("?error=access_denied&state=");
                out.append(self.state.as_str());
                out
            },
        }
    }
}

} // verus!
