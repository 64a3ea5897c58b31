//! The authorization code grant.
use vstd::prelude::*;

verus! {

/// What a client sends to redeem an authorization code.
#[derive(Debug, PartialEq, Eq)]
pub struct AuthorizationCodeGrantRequest {
    pub code: String,
    pub redirect_uri: String,
    pub code_verifier: Option<String>,
}

} // verus!
