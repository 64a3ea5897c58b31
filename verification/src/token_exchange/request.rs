//! Reading a token request.
use std::str::FromStr;
use vstd::prelude::*;
use vstd::string::*;

use crate::client::{ClientPrincipal, ClientPrincipalView, GrantType};
use crate::http::{FormParameters, StatusCode};
use crate::token_exchange::grant::password::{
    spec_validate_password_grant, unauthorized_client_failure, validate_password_grant,
    PasswordGrantRequest, PasswordGrantRequestView,
};
use crate::token_exchange::response::{
    missing_parameter_failure, ErrorType, TokenExchangeResponse, TokenExchangeResponseView,
};

verus! {

/// A token request that has passed validation, by the grant that it uses.
#[derive(Debug, PartialEq, Eq)]
pub enum TokenExchangeRequest {
    Password(PasswordGrantRequest),
}

/// A validated token request as contracts see it.
pub enum TokenExchangeRequestView {
    Password(PasswordGrantRequestView),
}

impl View for TokenExchangeRequest {
    type V = TokenExchangeRequestView;

    open spec fn view(&self) -> TokenExchangeRequestView {
        match self {
            TokenExchangeRequest::Password(request) => TokenExchangeRequestView::Password(request@),
        }
    }
}

/// The validated request that a form held.
#[derive(Debug, PartialEq, Eq)]
pub struct TokenExchangeForm(pub TokenExchangeRequest);

impl View for TokenExchangeForm {
    type V = TokenExchangeRequestView;

    open spec fn view(&self) -> TokenExchangeRequestView {
        self.0@
    }
}

/// The failure of a request that names a grant type which the server does not know.
pub open spec fn unsupported_grant_type_failure(message: Seq<char>) -> TokenExchangeResponseView {
    TokenExchangeResponseView::Failure {
        error: ErrorType::UnsupportedGrantType,
        error_description: message,
    }
}

/// The failure of a request that reached validation without an authenticated client.
pub open spec fn missing_client_authentication_failure() -> TokenExchangeResponseView {
    TokenExchangeResponseView::Failure {
        error: ErrorType::InvalidRequest,
        error_description: "missing client authentication"@,
    }
}

/// What validation makes of a token request: the grant type is read first, then the
/// client's right to it, then the request is validated as that grant asks.
pub open spec fn spec_validate_grant_type(
    principal: ClientPrincipalView,
    request: Map<Seq<char>, Seq<char>>,
) -> Result<TokenExchangeRequestView, TokenExchangeResponseView> {
    if !request.dom().contains("grant_type"@) {
        Err(missing_parameter_failure("grant_type"@))
    } else {
        match GrantType::spec_from_str(request["grant_type"@]) {
            Err(message) => Err(unsupported_grant_type_failure(message)),
            Ok(grant_type) => if !principal.configuration().allowed_grant_types.contains(
                grant_type,
            ) {
                Err(unauthorized_client_failure(grant_type))
            } else {
                match grant_type {
                    GrantType::Password => match spec_validate_password_grant(principal, request) {
                        Ok(grant) => Ok(TokenExchangeRequestView::Password(grant)),
                        Err(failure) => Err(failure),
                    },
                }
            },
        }
    }
}

/// Validates the token request of an authenticated client.
pub fn validate_grant_type(principal: ClientPrincipal, request: FormParameters) -> (validated:
    Result<TokenExchangeForm, TokenExchangeResponse>)
    ensures
        match spec_validate_grant_type(principal@, request@) {
            Ok(valid) => validated matches Ok(form) && form@ == valid,
            Err(failure) => validated matches Err(response) && response@ == failure,
        },
{
    let grant_type = match request.get("grant_type") {
        None => {
            return Err(TokenExchangeResponse::missing_parameter("grant_type"));
        },
        Some(value) => match GrantType::from_str(value.as_str()) {
            Err(error_message) => {
                return Err(
                    TokenExchangeResponse::failure(ErrorType::UnsupportedGrantType, error_message),
                );
            },
            Ok(grant_type) => grant_type,
        },
    };
    if !principal.can_perform_grant_type(&grant_type) {
        return Err(
            TokenExchangeResponse::failure(
                ErrorType::UnauthorizedClient,
                "not authorized to: ".to_owned().concat(grant_type.label()),
            ),
        );
    }
    match grant_type {
        GrantType::Password => match validate_password_grant(principal, request) {
            Ok(grant) => Ok(TokenExchangeForm(TokenExchangeRequest::Password(grant))),
            Err(failure) => Err(failure),
        },
    }
}

impl TokenExchangeForm {
    /// What comes of a request once its client and its form are at hand: the validated
    /// request, or the failure to answer with and its status code. A request that comes
    /// without an authenticated client is turned down before its form is looked at.
    pub fn from_request(principal: Option<ClientPrincipal>, request: FormParameters) -> (extracted:
        Result<TokenExchangeForm, (StatusCode, TokenExchangeResponse)>)
        ensures
            match principal {
                None => extracted matches Err(rejection) && rejection.0 == StatusCode::BadRequest
                    && rejection.1@ == missing_client_authentication_failure(),
                Some(principal) => match spec_validate_grant_type(principal@, request@) {
                    Ok(valid) => extracted matches Ok(form) && form@ == valid,
                    Err(failure) => extracted matches Err(rejection) && rejection.0
                        == StatusCode::BadRequest && rejection.1@ == failure,
                },
            },
    {
        let principal = match principal {
            None => {
                return Err(
                    handle_validation_failure(
                        TokenExchangeResponse::failure(
                            ErrorType::InvalidRequest,
                            "missing client authentication".to_owned(),
                        ),
                    ),
                );
            },
            Some(principal) => principal,
        };
        match validate_grant_type(principal, request) {
            Err(failure) => Err(handle_validation_failure(failure)),
            Ok(valid) => Ok(valid),
        }
    }
}

/// A failed validation is answered with 400.
fn handle_validation_failure(failure: TokenExchangeResponse) -> (rejection: (
    StatusCode,
    TokenExchangeResponse,
))
    ensures
        rejection.0 == StatusCode::BadRequest,
        rejection.1 == failure,
{
    (StatusCode::BadRequest, failure)
}

/// The failure that answers a form which could not be read, with the words of the
/// rejection as its description.
pub fn handle_form_rejection(body_text: String) -> (failure: TokenExchangeResponse)
    ensures
        failure@ == (TokenExchangeResponseView::Failure {
            error: ErrorType::InvalidRequest,
            error_description: body_text@,
        }),
{
    TokenExchangeResponse::failure(ErrorType::InvalidRequest, body_text)
}

} // verus!
