//! The resource owner password credentials grant.
use vstd::prelude::*;
use vstd::string::*;

use crate::client::configuration::ClientConfigurationView;
use crate::client::{
    ClientPrincipal, ClientPrincipalView, ClientType, ConfidentialClient, GrantType,
};
use crate::http::{field_of, FormParameters};
use crate::scope::parser::{is_valid_scope_name, parse_scopes, spec_parse_scopes, ParseError};
use crate::scope::{space_joined, Scopes};
use crate::text::{is_blank, is_blank_str};
use crate::token::repository::TokenRepository;
use crate::token::{AccessToken, TokenType};
use crate::token_exchange::response::{
    invalid_parameter_failure, missing_parameter_failure, ErrorType, TokenExchangeResponse,
    TokenExchangeResponseView,
};
use crate::util::identifier::{is_random_uuid, new_v4};

verus! {

/// A password grant request that has passed validation.
#[derive(Debug, PartialEq, Eq)]
pub struct PasswordGrantRequest {
    pub principal: ConfidentialClient,
    pub username: String,
    pub password: String,
    pub scopes: Option<Scopes>,
}

/// A validated password grant request as contracts see it.
pub struct PasswordGrantRequestView {
    pub principal: ClientConfigurationView,
    pub username: Seq<char>,
    pub password: Seq<char>,
    pub scopes: Option<Seq<Seq<char>>>,
}

/// The names of scopes that may be absent.
pub open spec fn scopes_view(scopes: Option<Scopes>) -> Option<Seq<Seq<char>>> {
    match scopes {
        Some(scopes) => Some(scopes@),
        None => None,
    }
}

impl View for PasswordGrantRequest {
    type V = PasswordGrantRequestView;

    open spec fn view(&self) -> PasswordGrantRequestView {
        PasswordGrantRequestView {
            principal: self.principal@,
            username: self.username@,
            password: self.password@,
            scopes: scopes_view(self.scopes),
        }
    }
}

/// The number of seconds for which an access token is good.
pub const EXPIRES_IN: i64 = 7200;

/// The failure of a client that may not use a grant type.
pub open spec fn unauthorized_client_failure(grant_type: GrantType) -> TokenExchangeResponseView {
    TokenExchangeResponseView::Failure {
        error: ErrorType::UnauthorizedClient,
        error_description: "not authorized to: "@ + grant_type.spec_label(),
    }
}

/// The failure of a request whose `scope` is not in order. It does not tell which scope
/// was at fault, nor why.
pub open spec fn invalid_scope_failure() -> TokenExchangeResponseView {
    TokenExchangeResponseView::Failure {
        error: ErrorType::InvalidScope,
        error_description: "invalid parameter: scope"@,
    }
}

/// Whether a client of the given configuration may be given every one of `names`.
pub open spec fn all_allowed(configuration: ClientConfigurationView, names: Seq<Seq<char>>) -> bool {
    forall|i: int| 0 <= i < names.len() ==> configuration.allowed_scopes.contains(#[trigger] names[i])
}

/// What validation makes of a password grant request. The checks come in a fixed order,
/// and the first that fails decides: the client's right to the grant, the user name, the
/// password, the scope.
pub open spec fn spec_validate_password_grant(
    principal: ClientPrincipalView,
    request: Map<Seq<char>, Seq<char>>,
) -> Result<PasswordGrantRequestView, TokenExchangeResponseView> {
    if !(principal is Confidential && principal.configuration().allowed_grant_types.contains(
        GrantType::Password,
    )) {
        Err(unauthorized_client_failure(GrantType::Password))
    } else if !request.dom().contains("username"@) {
        Err(missing_parameter_failure("username"@))
    } else if is_blank(request["username"@]) {
        Err(invalid_parameter_failure("username"@))
    } else if !request.dom().contains("password"@) {
        Err(missing_parameter_failure("password"@))
    } else {
        match spec_parse_scopes(field_of(request, "scope"@)) {
            Err(_) => Err(invalid_scope_failure()),
            Ok(scopes) => if scopes matches Some(names) && !all_allowed(
                principal.configuration(),
                names,
            ) {
                Err(invalid_scope_failure())
            } else {
                Ok(
                    PasswordGrantRequestView {
                        principal: principal.configuration(),
                        username: request["username"@],
                        password: request["password"@],
                        scopes,
                    },
                )
            },
        }
    }
}

fn unauthorized_client(grant_type: GrantType) -> (response: TokenExchangeResponse)
    ensures
        response@ == unauthorized_client_failure(grant_type),
{
    TokenExchangeResponse::Failure {
        error: ErrorType::UnauthorizedClient,
        error_description: "not authorized to: ".to_owned().concat(grant_type.label()),
    }
}

fn invalid_scope() -> (response: TokenExchangeResponse)
    ensures
        response@ == invalid_scope_failure(),
{
    TokenExchangeResponse::Failure {
        error: ErrorType::InvalidScope,
        error_description: "invalid parameter: scope".to_owned(),
    }
}

/// Whether the client may be given every one of `scopes`.
fn may_be_issued_all(client: &ConfidentialClient, scopes: &Scopes) -> (allowed: bool)
    ensures
        allowed == all_allowed(client@, scopes@),
{
    let mut i: usize = 0;
    while i < scopes.0.len()
        invariant
            i <= scopes.0@.len(),
            forall|j: int| 0 <= j < i ==> client@.allowed_scopes.contains(#[trigger] scopes@[j]),
        decreases scopes.0@.len() - i,
    {
        if !client.can_be_issued(&scopes.0[i]) {
            assert(!client@.allowed_scopes.contains(scopes@[i as int]));
            return false;
        }
        i += 1;
    }
    true
}

/// A public client is refused the password grant as unauthorized, whatever its request
/// holds.
pub proof fn lemma_public_client_is_unauthorized(
    principal: ClientPrincipalView,
    request: Map<Seq<char>, Seq<char>>,
)
    requires
        principal is Public,
    ensures
        spec_validate_password_grant(principal, request) == Err::<
            PasswordGrantRequestView,
            TokenExchangeResponseView,
        >(unauthorized_client_failure(GrantType::Password)),
{
}

/// What a validated request carries is what was sent: its client is a confidential one
/// that may use the grant, its user name is not blank, and its scopes are those that the
/// request named, each of them known, named once, and allowed to the client.
pub proof fn lemma_validated_request(principal: ClientPrincipalView, request: Map<Seq<char>, Seq<char>>)
    ensures
        spec_validate_password_grant(principal, request) matches Ok(grant) ==> {
            &&& principal == ClientPrincipalView::Confidential(grant.principal)
            &&& grant.principal.allowed_grant_types.contains(GrantType::Password)
            &&& field_of(request, "username"@) == Some(grant.username)
            &&& !is_blank(grant.username)
            &&& field_of(request, "password"@) == Some(grant.password)
            &&& spec_parse_scopes(field_of(request, "scope"@)) == Ok::<
                Option<Seq<Seq<char>>>,
                ParseError,
            >(grant.scopes)
            &&& grant.scopes matches Some(names) ==> {
                &&& names.len() > 0
                &&& names.no_duplicates()
                &&& forall|i: int| 0 <= i < names.len() ==> is_valid_scope_name(#[trigger] names[i])
                &&& all_allowed(grant.principal, names)
            }
        },
{
}

/// Validates a password grant request of an authenticated client.
pub fn validate_password_grant(principal: ClientPrincipal, request: FormParameters) -> (validated:
    Result<PasswordGrantRequest, TokenExchangeResponse>)
    ensures
        principal@ is Public ==> (validated matches Err(response) && response@
            == unauthorized_client_failure(GrantType::Password)),
        validated matches Ok(grant) ==> grant@.principal.client_type == ClientType::Confidential,
        match spec_validate_password_grant(principal@, request@) {
            Ok(valid) => validated matches Ok(grant) && grant@ == valid && (grant.scopes matches Some(
                scopes,
            ) ==> scopes.wf()),
            Err(failure) => validated matches Err(response) && response@ == failure,
        },
{
    let client = match principal {
        ClientPrincipal::Confidential(client) => client,
        ClientPrincipal::Public(_) => {
            return Err(unauthorized_client(GrantType::Password));
        },
    };
    if !client.can_perform_grant_type(&GrantType::Password) {
        return Err(unauthorized_client(GrantType::Password));
    }
    let username = match request.get("username") {
        None => {
            return Err(TokenExchangeResponse::missing_parameter("username"));
        },
        Some(username) => username,
    };
    if is_blank_str(username.as_str()) {
        return Err(TokenExchangeResponse::invalid_parameter("username"));
    }
    let password = match request.get("password") {
        None => {
            return Err(TokenExchangeResponse::missing_parameter("password"));
        },
        Some(password) => password,
    };
    let maybe_scopes = match parse_scopes(request.get("scope")) {
        Err(_) => {
            return Err(invalid_scope());
        },
        Ok(maybe_scopes) => maybe_scopes,
    };
    match &maybe_scopes {
        Some(scopes) => {
            if !may_be_issued_all(&client, scopes) {
                return Err(invalid_scope());
            }
        },
        None => {},
    }
    Ok(
        PasswordGrantRequest {
            principal: client,
            username: username.clone(),
            password: password.clone(),
            scopes: maybe_scopes,
        },
    )
}

/// The scopes as a token response shows them.
pub open spec fn granted_scope(scopes: Option<Seq<Seq<char>>>) -> Option<Seq<char>> {
    match scopes {
        Some(names) => Some(space_joined(names)),
        None => None,
    }
}

/// Whether a response grants what a validated password grant request asked for: a bearer
/// token of the fixed lifetime, with a refresh token, for the scopes of the request.
pub open spec fn grants(response: TokenExchangeResponseView, request: PasswordGrantRequestView) -> bool {
    response matches TokenExchangeResponseView::Success {
        access_token,
        token_type,
        expires_in,
        refresh_token,
        scope,
        state,
    } && {
        &&& is_random_uuid(access_token)
        &&& token_type == TokenType::Bearer
        &&& expires_in == EXPIRES_IN
        &&& refresh_token matches Some(id) && is_random_uuid(id)
        &&& scope == granted_scope(request.scopes)
        &&& state is None
    }
}

/// Whether the token store went from `before` to `after` by keeping the access token of
/// `response`, and nothing else.
pub open spec fn keeps_token_of<A: TokenRepository<AccessToken>>(
    before: A,
    after: A,
    response: TokenExchangeResponseView,
) -> bool {
    &&& after.in_memory() == before.in_memory()
    &&& before.in_memory() ==> match response {
        TokenExchangeResponseView::Success { access_token, .. } => after.tokens()
            == before.tokens().insert(access_token, AccessToken { id: access_token }),
        TokenExchangeResponseView::Failure { .. } => false,
    }
}

/// Issues the tokens of a validated password grant request: a new access token, kept in
/// the token store, and a new refresh token.
pub fn handle_password_grant<A: TokenRepository<AccessToken>>(
    access_token_repository: &mut A,
    request: PasswordGrantRequest,
) -> (response: TokenExchangeResponse)
    ensures
        grants(response@, request@),
        keeps_token_of(*old(access_token_repository), *final(access_token_repository), response@),
{
    let access_token = AccessToken { id: new_v4() };
    access_token_repository.save_token(&access_token);
    proof {
        if old(access_token_repository).in_memory() {
            assert(access_token_repository.tokens() =~= old(access_token_repository).tokens().insert(
                access_token.id,
                access_token,
            ));
        }
    }
    let scope = match &request.scopes {
        Some(scopes) => Some(scopes.to_space_delimited()),
        None => None,
    };
    TokenExchangeResponse::Success {
        access_token: access_token.id,
        token_type: TokenType::Bearer,
        expires_in: EXPIRES_IN,
        refresh_token: Some(new_v4()),
        scope,
        state: None,
    }
}

} // verus!
