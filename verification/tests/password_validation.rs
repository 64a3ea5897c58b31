use oauth_server::client::configuration::ClientConfiguration;
use oauth_server::client::{ClientId, ClientPrincipal, ClientType, ConfidentialClient, GrantType};
use oauth_server::http::FormParameters;
use oauth_server::scope::{Scope, Scopes};
use oauth_server::token_exchange::grant::password::{validate_password_grant, PasswordGrantRequest};
use oauth_server::token_exchange::response::{ErrorType, TokenExchangeResponse};

fn new_client_configuration(client_id: &str, client_type: ClientType) -> ClientConfiguration {
    ClientConfiguration {
        client_id: ClientId::from(String::from(client_id)),
        client_type,
        redirect_uris: Vec::new(),
        allowed_scopes: vec![Scope::from("basic"), Scope::from("read"), Scope::from("write")],
        allowed_actions: Vec::new(),
        allowed_grant_types: vec![GrantType::Password],
    }
}

fn new_confidential_principal(client_id: &str) -> ClientPrincipal {
    ClientPrincipal::new_principal(new_client_configuration(client_id, ClientType::Confidential))
}

fn new_confidential_client(client_id: &str) -> ConfidentialClient {
    ConfidentialClient::new(new_client_configuration(client_id, ClientType::Confidential)).unwrap()
}

fn new_public_principal(client_id: &str) -> ClientPrincipal {
    ClientPrincipal::new_principal(new_client_configuration(client_id, ClientType::Public))
}

fn input_parameters(pairs: &[(&str, &str)]) -> FormParameters {
    let pairs: Vec<(String, String)> =
        pairs.iter().map(|(name, value)| (name.to_string(), value.to_string())).collect();
    FormParameters::from_pairs(&pairs)
}

fn expected_failure(error: ErrorType, error_description: &str) -> TokenExchangeResponse {
    TokenExchangeResponse::Failure { error, error_description: error_description.into() }
}

fn scopes(names: &[&str]) -> Scopes {
    Scopes(names.iter().map(|name| Scope::from(*name)).collect())
}

#[test]
fn should_return_invalid_request_for_a_public_client() {
    assert_eq!(
        validate_password_grant(
            new_public_principal("aardvark"),
            input_parameters(&[("username", "aardvark"), ("password", "<REDACTED>"), ("scope", "read write")]),
        )
        .unwrap_err(),
        expected_failure(ErrorType::UnauthorizedClient, "not authorized to: Password")
    );
}

#[test]
fn should_return_invalid_request_for_an_unauthorised_client() {
    assert_eq!(
        validate_password_grant(
            ClientPrincipal::new_principal(ClientConfiguration {
                client_id: String::from("unauthorised").into(),
                client_type: ClientType::Confidential,
                redirect_uris: Default::default(),
                allowed_scopes: Default::default(),
                allowed_actions: Default::default(),
                allowed_grant_types: Default::default(),
            }),
            input_parameters(&[("username", "aardvark"), ("password", "<REDACTED>"), ("scope", "read write")]),
        )
        .unwrap_err(),
        expected_failure(ErrorType::UnauthorizedClient, "not authorized to: Password")
    );
}

#[test]
fn should_return_invalid_request_on_missing_username() {
    assert_eq!(
        validate_password_grant(
            new_confidential_principal("aardvark"),
            input_parameters(&[("password", "<REDACTED>"), ("scope", "read write")]),
        )
        .unwrap_err(),
        expected_failure(ErrorType::InvalidRequest, "missing parameter: username")
    );
}

#[test]
fn should_return_invalid_request_on_blank_username() {
    assert_eq!(
        validate_password_grant(
            new_confidential_principal("aardvark"),
            input_parameters(&[("username", " "), ("password", "<REDACTED>"), ("scope", "read write")]),
        )
        .unwrap_err(),
        expected_failure(ErrorType::InvalidRequest, "invalid parameter: username")
    );
}

#[test]
fn should_return_invalid_request_on_missing_password() {
    assert_eq!(
        validate_password_grant(
            new_confidential_principal("aardvark"),
            input_parameters(&[("username", "aardvark"), ("scope", "read write")]),
        )
        .unwrap_err(),
        expected_failure(ErrorType::InvalidRequest, "missing parameter: password")
    );
}

#[test]
fn should_return_invalid_request_on_blank_scope() {
    assert_eq!(
        validate_password_grant(
            new_confidential_principal("aardvark"),
            input_parameters(&[("username", "aardvark"), ("password", "<REDACTED>"), ("scope", " ")]),
        )
        .unwrap_err(),
        expected_failure(ErrorType::InvalidScope, "invalid parameter: scope")
    );
}

#[test]
fn should_return_invalid_request_with_an_invalid_scope() {
    assert_eq!(
        validate_password_grant(
            ClientPrincipal::new_principal(ClientConfiguration {
                client_id: String::from("aardvark").into(),
                client_type: ClientType::Confidential,
                redirect_uris: Default::default(),
                allowed_scopes: vec![Scope::from("invalid")],
                allowed_actions: Default::default(),
                allowed_grant_types: vec![GrantType::Password],
            }),
            input_parameters(&[("username", "aardvark"), ("password", "<REDACTED>"), ("scope", "invalid")]),
        )
        .unwrap_err(),
        expected_failure(ErrorType::InvalidScope, "invalid parameter: scope")
    );
}

#[test]
fn should_return_invalid_request_with_an_invalid_scope_and_a_valid_scope() {
    assert_eq!(
        validate_password_grant(
            new_confidential_principal("aardvark"),
            input_parameters(&[("username", "aardvark"), ("password", "<REDACTED>"), ("scope", "basic cicada")]),
        )
        .unwrap_err(),
        expected_failure(ErrorType::InvalidScope, "invalid parameter: scope")
    );
}

#[test]
fn should_return_invalid_request_with_an_duplicated_valid_scopes() {
    assert_eq!(
        validate_password_grant(
            new_confidential_principal("aardvark"),
            input_parameters(&[("username", "aardvark"), ("password", "<REDACTED>"), ("scope", "basic basic")]),
        )
        .unwrap_err(),
        expected_failure(ErrorType::InvalidScope, "invalid parameter: scope")
    );
}

#[test]
fn should_return_invalid_request_with_an_unauthorised_scope() {
    assert_eq!(
        validate_password_grant(
            ClientPrincipal::new_principal(ClientConfiguration {
                client_id: String::from("aardvark").into(),
                client_type: ClientType::Confidential,
                redirect_uris: Default::default(),
                allowed_scopes: vec![Scope::from("read")],
                allowed_actions: Default::default(),
                allowed_grant_types: vec![GrantType::Password],
            }),
            input_parameters(&[("username", "aardvark"), ("password", "<REDACTED>"), ("scope", "write")]),
        )
        .unwrap_err(),
        expected_failure(ErrorType::InvalidScope, "invalid parameter: scope")
    );
}

#[test]
fn should_return_valid_request_if_only_scope_is_not_provided() {
    assert_eq!(
        validate_password_grant(
            new_confidential_principal("aardvark"),
            input_parameters(&[("username", "aardvark"), ("password", "<REDACTED>")]),
        )
        .unwrap(),
        PasswordGrantRequest {
            principal: new_confidential_client("aardvark"),
            username: "aardvark".into(),
            password: "<REDACTED>".into(),
            scopes: None,
        }
    );
}

#[test]
fn should_return_valid_request_if_only_one_scope_is_provided() {
    assert_eq!(
        validate_password_grant(
            new_confidential_principal("aardvark"),
            input_parameters(&[("username", "aardvark"), ("password", "<REDACTED>"), ("scope", "basic")]),
        )
        .unwrap(),
        PasswordGrantRequest {
            principal: new_confidential_client("aardvark"),
            username: "aardvark".into(),
            password: "<REDACTED>".into(),
            scopes: Some(scopes(&["basic"])),
        }
    );
}

#[test]
fn should_return_valid_request_if_multiple_scopes_are_provided() {
    assert_eq!(
        validate_password_grant(
            new_confidential_principal("aardvark"),
            input_parameters(&[("username", "aardvark"), ("password", "<REDACTED>"), ("scope", "basic read write")]),
        )
        .unwrap(),
        PasswordGrantRequest {
            principal: new_confidential_client("aardvark"),
            username: "aardvark".into(),
            password: "<REDACTED>".into(),
            scopes: Some(scopes(&["basic", "read", "write"])),
        }
    );
}

#[test]
fn a_public_client_is_unauthorized_whatever_it_sends() {
    let requests: [&[(&str, &str)]; 5] = [
        &[],
        &[("username", "aardvark")],
        &[("username", " "), ("password", "")],
        &[("username", "aardvark"), ("password", "badger"), ("scope", "basic")],
        &[("username", "aardvark"), ("password", "badger"), ("scope", "unknown unknown")],
    ];
    for request in requests {
        assert_eq!(
            validate_password_grant(new_public_principal("badger"), input_parameters(request)).unwrap_err(),
            expected_failure(ErrorType::UnauthorizedClient, "not authorized to: Password")
        );
    }
}

#[test]
fn the_first_failing_check_decides() {
    let unauthorized = ClientPrincipal::new_principal(ClientConfiguration {
        client_id: ClientId::from(String::from("cicada")),
        client_type: ClientType::Confidential,
        redirect_uris: Vec::new(),
        allowed_scopes: Vec::new(),
        allowed_actions: Vec::new(),
        allowed_grant_types: Vec::new(),
    });
    assert_eq!(
        validate_password_grant(unauthorized, input_parameters(&[("scope", "unknown")])).unwrap_err(),
        expected_failure(ErrorType::UnauthorizedClient, "not authorized to: Password")
    );
    assert_eq!(
        validate_password_grant(new_confidential_principal("aardvark"), input_parameters(&[("scope", "unknown")]))
            .unwrap_err(),
        expected_failure(ErrorType::InvalidRequest, "missing parameter: username")
    );
    assert_eq!(
        validate_password_grant(
            new_confidential_principal("aardvark"),
            input_parameters(&[("username", "\t"), ("scope", "unknown")]),
        )
        .unwrap_err(),
        expected_failure(ErrorType::InvalidRequest, "invalid parameter: username")
    );
    assert_eq!(
        validate_password_grant(
            new_confidential_principal("aardvark"),
            input_parameters(&[("username", "u"), ("scope", "unknown")]),
        )
        .unwrap_err(),
        expected_failure(ErrorType::InvalidRequest, "missing parameter: password")
    );
    assert_eq!(
        validate_password_grant(
            new_confidential_principal("aardvark"),
            input_parameters(&[("username", "u"), ("password", "p"), ("scope", "unknown")]),
        )
        .unwrap_err(),
        expected_failure(ErrorType::InvalidScope, "invalid parameter: scope")
    );
}

#[test]
fn an_empty_password_is_a_password() {
    let validated = validate_password_grant(
        new_confidential_principal("aardvark"),
        input_parameters(&[("username", " aardvark "), ("password", "")]),
    )
    .unwrap();
    assert_eq!(validated.username, " aardvark ");
    assert_eq!(validated.password, "");
}

#[test]
fn an_empty_scope_is_an_invalid_scope() {
    assert_eq!(
        validate_password_grant(
            new_confidential_principal("aardvark"),
            input_parameters(&[("username", "u"), ("password", "p"), ("scope", "")]),
        )
        .unwrap_err(),
        expected_failure(ErrorType::InvalidScope, "invalid parameter: scope")
    );
}
