//! The core of an OAuth 2.0 token endpoint: client authentication, grant
//! validation and response assembly, with the contracts that each stage keeps.
use vstd::prelude::*;

pub mod client;
pub mod http;
pub mod scope;
pub mod text;
pub mod token;
pub mod token_exchange;
pub mod token_introspection;
pub mod util;

verus! {

/// `std::io::Error`, the error with which a store reports that it could not be reached.
/// Nothing is known of what it holds: the library hands it on, or answers it with a
/// server error.
#[verifier::external_type_specification]
#[verifier::external_body]
pub struct ExIoError(std::io::Error);

} // verus!
