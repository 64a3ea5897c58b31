//! The token endpoint as a whole.
use vstd::prelude::*;

use crate::client::authentication::ClientAuthenticator;
use crate::client::middleware::{
    body_client_id, require_client_authentication, spec_client_authentication,
};
use crate::http::{pairs_as_map, urlencoded_pairs, BasicCredentials, FormParameters, StatusCode};
use crate::token::repository::TokenRepository;
use crate::token::AccessToken;
use crate::token_exchange::grant::password::{grants, handle_password_grant, keeps_token_of};
use crate::token_exchange::request::{
    spec_validate_grant_type, TokenExchangeForm, TokenExchangeRequest, TokenExchangeRequestView,
};
use crate::token_exchange::response::{TokenExchangeResponse, TokenExchangeResponseView};

verus! {

/// What the token endpoint works with: the store of the tokens that it issues, and the
/// authenticator of the clients that ask for them.
pub struct TokenExchangeState<A: TokenRepository<AccessToken>, C: ClientAuthenticator> {
    pub access_token_repository: A,
    pub client_authenticator: C,
}

/// Answers a validated token request: hands it to the handler of its grant, and pairs
/// the response with its status code.
pub fn token_exchange_handler<A: TokenRepository<AccessToken>>(
    access_token_repository: &mut A,
    form: TokenExchangeForm,
) -> (answer: (StatusCode, TokenExchangeResponse))
    ensures
        answer.0 == StatusCode::Success,
        answer.0 == answer.1.spec_status(),
        form@ matches TokenExchangeRequestView::Password(request) && grants(answer.1@, request),
        keeps_token_of(*old(access_token_repository), *final(access_token_repository), answer.1@),
{
    let TokenExchangeForm(request) = form;
    let result = match request {
        TokenExchangeRequest::Password(password_grant_request) => handle_password_grant(
            access_token_repository,
            password_grant_request,
        ),
    };
    let status = result.status();
    (status, result)
}

/// A response that may be absent, as contracts see it.
pub open spec fn response_view(response: Option<TokenExchangeResponse>) -> Option<
    TokenExchangeResponseView,
> {
    match response {
        Some(response) => Some(response@),
        None => None,
    }
}

/// What an endpoint with an in-memory authenticator makes of a request before it issues
/// anything: the validated request, or the status code and the failure, if any, with
/// which the request is turned down. Authentication comes first: a request that fails it
/// is answered with its status code alone.
pub open spec fn spec_route<C: ClientAuthenticator>(
    authenticator: C,
    maybe_basic_auth: Option<BasicCredentials>,
    body: Seq<u8>,
) -> Result<TokenExchangeRequestView, (StatusCode, Option<TokenExchangeResponseView>)> {
    match spec_client_authentication(authenticator, maybe_basic_auth, body_client_id(body)) {
        Err(status) => Err((status, None)),
        Ok(principal) => match spec_validate_grant_type(
            principal,
            pairs_as_map(urlencoded_pairs(body)),
        ) {
            Err(failure) => Err((StatusCode::BadRequest, Some(failure))),
            Ok(request) => Ok(request),
        },
    }
}

/// Takes one request to the token endpoint through its stages: client authentication,
/// validation, and the handler of the grant. The answer is a status code and, unless the
/// client could not be authenticated, a response.
///
/// A request that fails authentication is answered before anything of its grant is
/// looked at, and one that fails authentication or validation leaves the token store as
/// it was.
pub fn route<A: TokenRepository<AccessToken>, C: ClientAuthenticator>(
    state: &mut TokenExchangeState<A, C>,
    maybe_basic_auth: Option<&BasicCredentials>,
    body: &[u8],
) -> (answer: (StatusCode, Option<TokenExchangeResponse>))
    ensures
        final(state).client_authenticator == old(state).client_authenticator,
        maybe_basic_auth is Some && body_client_id(body@) is Some ==> answer.0
            == StatusCode::Unauthorized && answer.1 is None && *final(state) == *old(state),
        maybe_basic_auth is None && body_client_id(body@) is None ==> answer.0
            == StatusCode::Unauthorized && answer.1 is None && *final(state) == *old(state),
        match answer.1 {
            None => (answer.0 == StatusCode::Unauthorized || answer.0
                == StatusCode::InternalServerError) && *final(state) == *old(state),
            Some(response) => {
                &&& answer.0 == response.spec_status()
                &&& response is Failure ==> *final(state) == *old(state)
                &&& response is Success ==> keeps_token_of(
                    old(state).access_token_repository,
                    final(state).access_token_repository,
                    response@,
                )
            },
        },
        old(state).client_authenticator.in_memory() ==> match spec_route(
            old(state).client_authenticator,
            match maybe_basic_auth {
                Some(basic) => Some(*basic),
                None => None,
            },
            body@,
        ) {
            Err(rejection) => {
                &&& answer.0 == rejection.0
                &&& response_view(answer.1) == rejection.1
                &&& *final(state) == *old(state)
            },
            Ok(TokenExchangeRequestView::Password(request)) => {
                &&& answer.0 == StatusCode::Success
                &&& answer.1 matches Some(response) && grants(response@, request)
            },
        },
{
    let principal = match require_client_authentication(
        &state.client_authenticator,
        maybe_basic_auth,
        body,
    ) {
        Err(status) => {
            return (status, None);
        },
        Ok(principal) => principal,
    };
    let form = match TokenExchangeForm::from_request(
        Some(principal),
        FormParameters::from_body(body),
    ) {
        Err((status, failure)) => {
            return (status, Some(failure));
        },
        Ok(form) => form,
    };
    let (status, response) = token_exchange_handler(&mut state.access_token_repository, form);
    (status, Some(response))
}

} // verus!
