//! The claims of a session token.

use vstd::prelude::*;

verus! {

/// Who a token is for (`sub`), when it was issued (`iat`) and when it expires
/// (`exp`), in seconds since the Unix epoch.
#[derive(Clone, Debug)]
pub struct TokenClaims {
    pub sub: String,
    pub iat: usize,
    pub exp: usize,
}

} // verus!
