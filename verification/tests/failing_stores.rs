use oauth_server::client::authentication::{ClientAuthenticationService, ClientAuthenticator};
use oauth_server::client::configuration::{
    ClientConfiguration, ClientConfigurationRepository, InMemoryClientConfigurationRepository,
};
use oauth_server::client::middleware::{
    confidential_outcome, public_outcome, require_client_authentication,
    require_confidential_client_authentication,
};
use oauth_server::client::secret::{ClientSecret, ClientSecretRepository, InMemoryClientSecretRepository};
use oauth_server::client::{ClientId, ConfidentialClient, PublicClient};
use oauth_server::http::{BasicCredentials, StatusCode};

struct UnreachableConfigurations;

impl ClientConfigurationRepository for UnreachableConfigurations {
    fn find_by_id(&self, _client_id: &ClientId) -> Result<Option<ClientConfiguration>, std::io::Error> {
        Err(std::io::Error::other("the store is down"))
    }

    fn find_by_client_id(&self, _client_id: &str) -> Result<Option<ClientConfiguration>, std::io::Error> {
        Err(std::io::Error::other("the store is down"))
    }
}

struct UnreachableSecrets;

impl ClientSecretRepository for UnreachableSecrets {
    fn find_by_id(&self, _id: u128) -> Result<Option<ClientSecret>, std::io::Error> {
        Err(std::io::Error::other("the store is down"))
    }

    fn find_all_by_client(&self, _client_id: &ClientId) -> Result<Vec<ClientSecret>, std::io::Error> {
        Err(std::io::Error::other("the store is down"))
    }

    fn find_all_by_client_id(&self, _client_id: &str) -> Result<Vec<ClientSecret>, std::io::Error> {
        Err(std::io::Error::other("the store is down"))
    }
}

fn basic(username: &str, password: &str) -> BasicCredentials {
    BasicCredentials { username: username.into(), password: password.into() }
}

#[test]
fn a_store_that_fails_is_told_from_an_unknown_client() {
    let service = ClientAuthenticationService::new(InMemoryClientSecretRepository::default(), UnreachableConfigurations);
    assert!(service.authenticate_as_public_client("badger").is_err());
    assert!(matches!(service.authenticate_as_confidential_client("aardvark", b"badger"), Ok(None)));
}

#[test]
fn a_secret_store_that_fails_fails_the_authentication() {
    let service = ClientAuthenticationService::new(UnreachableSecrets, InMemoryClientConfigurationRepository::new());
    assert!(service.authenticate_as_confidential_client("aardvark", b"badger").is_err());
    assert!(matches!(service.authenticate_as_public_client("badger"), Ok(Some(_))));
}

#[test]
fn a_configuration_store_that_fails_after_the_secret_was_verified_fails_the_authentication() {
    let service = ClientAuthenticationService::new(InMemoryClientSecretRepository::new(), UnreachableConfigurations);
    assert!(service.authenticate_as_confidential_client("aardvark", b"badger").is_err());
}

#[test]
fn a_store_that_fails_is_answered_with_a_server_error() {
    let service = ClientAuthenticationService::new(UnreachableSecrets, UnreachableConfigurations);
    assert_eq!(
        require_client_authentication(&service, Some(&basic("aardvark", "badger")), b"grant_type=password"),
        Err(StatusCode::InternalServerError)
    );
    assert_eq!(
        require_client_authentication(&service, None, b"client_id=badger"),
        Err(StatusCode::InternalServerError)
    );
    assert_eq!(
        require_confidential_client_authentication(&service, Some(&basic("aardvark", "badger"))),
        Err(StatusCode::InternalServerError)
    );
}

#[test]
fn a_store_that_fails_is_not_asked_where_the_credentials_decide() {
    let service = ClientAuthenticationService::new(UnreachableSecrets, UnreachableConfigurations);
    assert_eq!(
        require_client_authentication(&service, Some(&basic("aardvark", "badger")), b"client_id=badger"),
        Err(StatusCode::Unauthorized)
    );
    assert_eq!(require_client_authentication(&service, None, b"grant_type=password"), Err(StatusCode::Unauthorized));
    assert_eq!(require_confidential_client_authentication(&service, None), Err(StatusCode::Unauthorized));
}

#[test]
fn outcomes_of_authentication_have_their_status_codes() {
    assert_eq!(
        confidential_outcome(Err(std::io::Error::other("down"))),
        Err::<ConfidentialClient, StatusCode>(StatusCode::InternalServerError)
    );
    assert_eq!(confidential_outcome(Ok(None)), Err(StatusCode::Unauthorized));
    assert_eq!(public_outcome(Err(std::io::Error::other("down"))), Err::<PublicClient, StatusCode>(StatusCode::InternalServerError));
    assert_eq!(public_outcome(Ok(None)), Err(StatusCode::Unauthorized));
    let configurations = InMemoryClientConfigurationRepository::new();
    let confidential = ConfidentialClient::new(configurations.find_by_client_id("aardvark").unwrap().unwrap()).unwrap();
    assert_eq!(confidential_outcome(Ok(Some(confidential.clone()))), Ok(confidential));
    let public = PublicClient::new(configurations.find_by_client_id("badger").unwrap().unwrap()).unwrap();
    assert_eq!(public_outcome(Ok(Some(public.clone()))), Ok(public));
    assert_eq!(ConfidentialClient::new(configurations.find_by_client_id("badger").unwrap().unwrap()), None);
    assert_eq!(PublicClient::new(configurations.find_by_client_id("aardvark").unwrap().unwrap()), None);
}
