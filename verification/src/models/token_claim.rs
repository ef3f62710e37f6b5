//! The claims of a refresh token's PASETO.
use vstd::prelude::*;

verus! {

/// The claims of a refresh token: id, secret, secret key, version, and the
/// issue, expiry and not-before times as Unix seconds.
#[derive(Debug)]
pub struct TokenClaims {
    pub jti: String,
    pub secret: String,
    pub secret_key: String,
    pub version: String,
    pub iat: i64,
    pub exp: i64,
    pub nbf: i64,
}

} // verus!
