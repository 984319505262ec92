//! Syntax checks on redirect URIs and on the authorization header.

use vstd::prelude::*;

verus! {

use vstd::string::StrSliceExecFns;
use crate::strutil::str_eq;

/// A redirect URI is accepted when it is absolute under one of the
/// allowed schemes (`https` or `http`) and names more than the scheme.
pub open spec fn valid_redirect_uri(u: Seq<char>) -> bool {
    (u.len() > 8 && u.subrange(0, 8) == "https://"@) || (u.len() > 7 && u.subrange(0, 7)
        == "http://"@)
}

/// Executable counterpart of [`valid_redirect_uri`].
pub fn check_redirect_uri(u: &str) -> (r: bool)
    ensures
        r == valid_redirect_uri(u@),
{
    let n: usize = u.unicode_len();
    if n > 8 && str_eq(u.substring_char(0, 8), "https://") {
        return true;
    }
    if n > 7 && str_eq(u.substring_char(0, 7), "http://") {
        return true;
    }
    false
}

/// The token carried by an authorization header value: the remainder
/// after the `Bearer ` scheme prefix, or nothing when the header does
/// not carry a bearer credential.
pub open spec fn bearer_of(header: Seq<char>) -> Option<Seq<char>> {
    if header.len() >= 7 && header.subrange(0, 7) == "Bearer "@ {
        Some(header.subrange(7, header.len() as int))
    } else {
        None
    }
}

/// Executable counterpart of [`bearer_of`].
pub fn extract_bearer(header: &str) -> (r: Option<String>)
    ensures
        match r {
            Some(t) => bearer_of(header@) == Some(t@),
            None => bearer_of(header@) is None,
        },
{
    let n: usize = header.unicode_len();
    if n >= 7 && str_eq(header.substring_char(0, 7), "Bearer ") {
        Some(header.substring_char(7, n).to_owned())
    } else {
        None
    }
}

} // verus!
