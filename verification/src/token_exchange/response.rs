//! What the token endpoint answers.
use vstd::prelude::*;
use vstd::string::*;

use crate::http::StatusCode;
use crate::token::TokenType;

verus! {

/// The kinds of failure that a token response can name.
#[derive(Debug, Clone, Copy, PartialEq, Eq, Structural)]
pub enum ErrorType {
    /// The request lacks a parameter, holds a value that is not in order, or is otherwise
    /// malformed.
    InvalidRequest,
    /// The client could not be authenticated.
    InvalidClient,
    /// The grant that the client presented is not valid.
    InvalidGrant,
    /// The scope asked for is invalid, unknown, malformed, or more than the client may have.
    InvalidScope,
    /// The client may not use this grant type.
    UnauthorizedClient,
    /// The server does not know this grant type.
    UnsupportedGrantType,
}

impl ErrorType {
    /// The name of the error in a response.
    pub open spec fn spec_name(self) -> Seq<char> {
        match self {
            ErrorType::InvalidRequest => "invalid_request"@,
            ErrorType::InvalidClient => "invalid_client"@,
            ErrorType::InvalidGrant => "invalid_grant"@,
            ErrorType::InvalidScope => "invalid_scope"@,
            ErrorType::UnauthorizedClient => "unauthorized_client"@,
            ErrorType::UnsupportedGrantType => "unsupported_grant_type"@,
        }
    }

    /// The name of the error in a response.
    pub fn name(&self) -> (name: &'static str)
        ensures
            name@ == self.spec_name(),
    {
        match self {
            ErrorType::InvalidRequest => "invalid_request",
            ErrorType::InvalidClient => "invalid_client",
            ErrorType::InvalidGrant => "invalid_grant",
            ErrorType::InvalidScope => "invalid_scope",
            ErrorType::UnauthorizedClient => "unauthorized_client",
            ErrorType::UnsupportedGrantType => "unsupported_grant_type",
        }
    }
}

/// The answer to a token request.
#[derive(Debug, PartialEq, Eq)]
pub enum TokenExchangeResponse {
    Success {
        /// The access token that was issued.
        access_token: u128,
        /// How the token is to be presented.
        token_type: TokenType,
        /// The number of seconds for which the access token is good.
        expires_in: i64,
        /// A token with which a new access token can be had.
        refresh_token: Option<u128>,
        /// The scopes of the access token, separated by spaces.
        scope: Option<String>,
        /// The `state` that the client sent, where it sent one.
        state: Option<String>,
    },
    Failure {
        /// The kind of failure.
        error: ErrorType,
        /// Words for the developer of the client.
        error_description: String,
    },
}

/// The characters of a string that may be absent.
pub open spec fn text_view(text: Option<String>) -> Option<Seq<char>> {
    match text {
        Some(text) => Some(text@),
        None => None,
    }
}

/// A response as contracts see it.
pub enum TokenExchangeResponseView {
    Success {
        access_token: u128,
        token_type: TokenType,
        expires_in: i64,
        refresh_token: Option<u128>,
        scope: Option<Seq<char>>,
        state: Option<Seq<char>>,
    },
    Failure { error: ErrorType, error_description: Seq<char> },
}

impl View for TokenExchangeResponse {
    type V = TokenExchangeResponseView;

    open spec fn view(&self) -> TokenExchangeResponseView {
        match self {
            TokenExchangeResponse::Success {
                access_token,
                token_type,
                expires_in,
                refresh_token,
                scope,
                state,
            } => TokenExchangeResponseView::Success {
                access_token: *access_token,
                token_type: *token_type,
                expires_in: *expires_in,
                refresh_token: *refresh_token,
                scope: text_view(*scope),
                state: text_view(*state),
            },
            TokenExchangeResponse::Failure {
                error,
                error_description,
            } => TokenExchangeResponseView::Failure {
                error: *error,
                error_description: error_description@,
            },
        }
    }
}

/// The failure that names a parameter which the request lacks.
pub open spec fn missing_parameter_failure(name: Seq<char>) -> TokenExchangeResponseView {
    TokenExchangeResponseView::Failure {
        error: ErrorType::InvalidRequest,
        error_description: "missing parameter: "@ + name,
    }
}

/// The failure that names a parameter whose value is not in order.
pub open spec fn invalid_parameter_failure(name: Seq<char>) -> TokenExchangeResponseView {
    TokenExchangeResponseView::Failure {
        error: ErrorType::InvalidRequest,
        error_description: "invalid parameter: "@ + name,
    }
}

impl TokenExchangeResponse {
    /// A failure of the given kind, described by the given words.
    pub fn failure(error: ErrorType, error_description: String) -> (response: Self)
        ensures
            response@ == (TokenExchangeResponseView::Failure {
                error,
                error_description: error_description@,
            }),
    {
        TokenExchangeResponse::Failure { error, error_description }
    }

    /// The failure that names a parameter which the request lacks.
    pub fn missing_parameter(name: &str) -> (response: Self)
        ensures
            response@ == missing_parameter_failure(name@),
    {
        TokenExchangeResponse::Failure {
            error: ErrorType::InvalidRequest,
            error_description: "missing parameter: ".to_owned().concat(name),
        }
    }

    /// The failure that names a parameter whose value is not in order.
    pub fn invalid_parameter(name: &str) -> (response: Self)
        ensures
            response@ == invalid_parameter_failure(name@),
    {
        TokenExchangeResponse::Failure {
            error: ErrorType::InvalidRequest,
            error_description: "invalid parameter: ".to_owned().concat(name),
        }
    }

    /// The status code that goes with a response: 200 with a success, 400 with a failure.
    pub open spec fn spec_status(&self) -> StatusCode {
        match self {
            TokenExchangeResponse::Success { .. } => StatusCode::Success,
            TokenExchangeResponse::Failure { .. } => StatusCode::BadRequest,
        }
    }

    /// The status code that goes with a response: 200 with a success, 400 with a failure.
    pub fn status(&self) -> (status: StatusCode)
        ensures
            status == self.spec_status(),
    {
        match self {
            TokenExchangeResponse::Success { .. } => StatusCode::Success,
            TokenExchangeResponse::Failure { .. } => StatusCode::BadRequest,
        }
    }
}

} // verus!
