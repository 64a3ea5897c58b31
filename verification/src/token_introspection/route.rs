//! Answering an introspection request.
use vstd::prelude::*;

use crate::http::StatusCode;
use crate::token::repository::TokenRepository;
use crate::token::AccessToken;
use crate::util::identifier::{is_random_uuid, new_v4};

verus! {

/// What the introspection endpoint says of a token.
#[derive(Debug, Clone, Copy, PartialEq, Eq, Structural)]
pub struct TokenIntrospectionResponse {
    pub active: bool,
}

/// Whether `response` is what the endpoint says of the token of the identifier `id`: for
/// an in-memory store, that the token is active exactly if the store keeps a token under
/// `id`.
pub open spec fn tells_of<A: TokenRepository<AccessToken>>(
    access_token_repository: A,
    id: u128,
    response: TokenIntrospectionResponse,
) -> bool {
    access_token_repository.in_memory() ==> response.active
        == access_token_repository.tokens().dom().contains(id)
}

/// Says whether the token store keeps a token under `id`.
pub fn introspect<A: TokenRepository<AccessToken>>(access_token_repository: &A, id: u128) -> (answer: (
    StatusCode,
    TokenIntrospectionResponse,
))
    ensures
        answer.0 == StatusCode::Success,
        tells_of(*access_token_repository, id, answer.1),
{
    match access_token_repository.get_token(id) {
        Some(_) => (StatusCode::Success, TokenIntrospectionResponse { active: true }),
        None => (StatusCode::Success, TokenIntrospectionResponse { active: false }),
    }
}

/// Answers an introspection request. The request is not read yet: the token that is
/// asked about is a fresh random one, and the answer is what the store says of that
/// token. So there is a random identifier of which the answer tells: an in-memory store
/// reports the token as active exactly if it keeps a token under that identifier.
pub fn token_introspection_handler<A: TokenRepository<AccessToken>>(access_token_repository: &A) -> (answer:
    (StatusCode, TokenIntrospectionResponse))
    ensures
        answer.0 == StatusCode::Success,
        exists|id: u128|
            is_random_uuid(id) && #[trigger] tells_of(*access_token_repository, id, answer.1),
{
    let id = new_v4();
    let answer = introspect(access_token_repository, id);
    assert(is_random_uuid(id) && tells_of(*access_token_repository, id, answer.1));
    answer
}

} // verus!
