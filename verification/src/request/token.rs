//! The tokens of a request.
use vstd::prelude::*;

verus! {

/// How a request carries its authentication token, which decides what the token
/// claims.
#[derive(Clone, Copy, Debug, PartialEq, Eq, Structural)]
pub enum TokenType {
    BrowserCookieToken,
    PersonalAccessToken,
}

} // verus!
