use oauth_server::client::authentication::{find_verified, ClientAuthenticationService, ClientAuthenticator};
use oauth_server::client::configuration::{
    ClientConfiguration, ClientConfigurationRepository, InMemoryClientConfigurationRepository,
};
use oauth_server::client::secret::{ClientSecret, ClientSecretRepository, InMemoryClientSecretRepository};
use oauth_server::client::{ClientAction, ClientId, ClientType, GrantType};
use oauth_server::scope::Scope;
use oauth_server::util::value_struct::ValueStruct;

fn secret_for(client_id: &str, client_secret: &[u8]) -> ClientSecret {
    InMemoryClientSecretRepository::create_hashed_entry(client_id, client_secret).unwrap().1
}

fn service_with(
    secrets: Vec<ClientSecret>,
) -> ClientAuthenticationService<InMemoryClientSecretRepository, InMemoryClientConfigurationRepository> {
    let mut repository = InMemoryClientSecretRepository::default();
    for secret in secrets {
        repository.insert(secret);
    }
    ClientAuthenticationService::new(repository, InMemoryClientConfigurationRepository::new())
}

fn seeded_confidential_configuration() -> ClientConfiguration {
    ClientConfiguration {
        client_id: ClientId::from(String::from("aardvark")),
        client_type: ClientType::Confidential,
        redirect_uris: Vec::new(),
        allowed_scopes: vec![Scope::from("basic")],
        allowed_actions: vec![ClientAction::Introspect],
        allowed_grant_types: vec![GrantType::Password],
    }
}

fn seeded_public_configuration() -> ClientConfiguration {
    ClientConfiguration {
        client_id: ClientId::from(String::from("badger")),
        client_type: ClientType::Public,
        redirect_uris: Vec::new(),
        allowed_scopes: vec![Scope::from("basic")],
        allowed_actions: Vec::new(),
        allowed_grant_types: Vec::new(),
    }
}

#[test]
fn the_seeded_client_is_let_in_with_its_secret() {
    let service = ClientAuthenticationService::new(
        InMemoryClientSecretRepository::new(),
        InMemoryClientConfigurationRepository::new(),
    );
    let client = service.authenticate_as_confidential_client("aardvark", b"badger").unwrap().unwrap();
    assert_eq!(client.configuration(), &seeded_confidential_configuration());
}

#[test]
fn the_seeded_client_is_refused_with_another_secret() {
    let service = ClientAuthenticationService::new(
        InMemoryClientSecretRepository::new(),
        InMemoryClientConfigurationRepository::new(),
    );
    assert_eq!(service.authenticate_as_confidential_client("aardvark", b"Badger").unwrap(), None);
}

#[test]
fn any_secret_on_file_lets_the_client_in() {
    let service = service_with(vec![secret_for("aardvark", b"old secret"), secret_for("aardvark", b"new secret")]);
    let with_old = service.authenticate_as_confidential_client("aardvark", b"old secret").unwrap().unwrap();
    assert_eq!(with_old.configuration(), &seeded_confidential_configuration());
    let with_new = service.authenticate_as_confidential_client("aardvark", b"new secret").unwrap().unwrap();
    assert_eq!(with_new.configuration(), &seeded_confidential_configuration());
}

#[test]
fn a_secret_that_is_not_on_file_lets_nobody_in() {
    let service = service_with(vec![secret_for("aardvark", b"old secret"), secret_for("aardvark", b"new secret")]);
    assert_eq!(service.authenticate_as_confidential_client("aardvark", b"no secret").unwrap(), None);
}

#[test]
fn the_secret_of_another_client_lets_nobody_in() {
    let service = service_with(vec![secret_for("cicada", b"shared")]);
    assert_eq!(service.authenticate_as_confidential_client("aardvark", b"shared").unwrap(), None);
}

#[test]
fn a_client_without_secrets_is_refused() {
    let service = service_with(Vec::new());
    assert_eq!(service.authenticate_as_confidential_client("aardvark", b"badger").unwrap(), None);
    assert_eq!(service.authenticate_as_confidential_client("unknown", b"").unwrap(), None);
}

#[test]
fn a_public_client_is_never_let_in_as_confidential() {
    let service = service_with(vec![secret_for("badger", b"correct")]);
    assert_eq!(service.authenticate_as_confidential_client("badger", b"correct").unwrap(), None);
}

#[test]
fn a_client_without_a_configuration_is_refused() {
    let service = service_with(vec![secret_for("cicada", b"correct")]);
    assert_eq!(service.authenticate_as_confidential_client("cicada", b"correct").unwrap(), None);
}

#[test]
fn a_public_client_is_known_by_its_identifier() {
    let service = service_with(Vec::new());
    let client = service.authenticate_as_public_client("badger").unwrap().unwrap();
    assert_eq!(client.configuration(), &seeded_public_configuration());
    assert!(client.can_be_issued(&Scope::from("basic")));
    assert!(!client.can_be_issued(&Scope::from("read")));
    assert!(!client.can_perform_grant_type(&GrantType::Password));
    assert!(!client.can_perform_action(&ClientAction::Introspect));
}

#[test]
fn a_confidential_or_unknown_client_is_no_public_client() {
    let service = service_with(Vec::new());
    assert_eq!(service.authenticate_as_public_client("aardvark").unwrap(), None);
    assert_eq!(service.authenticate_as_public_client("unknown").unwrap(), None);
    assert_eq!(service.authenticate_as_public_client("").unwrap(), None);
}

#[test]
fn the_first_verified_secret_is_found() {
    let first = secret_for("aardvark", b"one");
    let second = secret_for("aardvark", b"two");
    let garbage = ClientSecret { id: 7, client_id: ClientId::from(String::from("aardvark")), hashed_secret: "no hash".into() };
    let secrets = vec![garbage, first.clone(), second.clone()];
    assert_eq!(find_verified(&secrets, b"one"), Some(&first));
    assert_eq!(find_verified(&secrets, b"two"), Some(&second));
    assert_eq!(find_verified(&secrets, b"three"), None);
    assert_eq!(find_verified(&secrets, b"no hash"), None);
    assert_eq!(find_verified(&Vec::new(), b"one"), None);
}

#[test]
fn a_hashed_entry_names_its_client_and_hides_its_secret() {
    let (id, secret) = InMemoryClientSecretRepository::create_hashed_entry("aardvark", b"badger").unwrap();
    assert_eq!(secret.id, id);
    assert_eq!(secret.client_id.value(), "aardvark");
    assert!(secret.hashed_secret.starts_with("$argon2id$v=19$m=19456,t=2,p=1$AAAAAAAAAAAAAAAAAAAAAA$"));
    assert_eq!(id & 0x0000_0000_0000_F000_C000_0000_0000_0000, 0x0000_0000_0000_4000_8000_0000_0000_0000);
    let (other_id, other) = InMemoryClientSecretRepository::create_hashed_entry("aardvark", b"badger").unwrap();
    assert_ne!(other_id, id);
    assert_eq!(other.hashed_secret, secret.hashed_secret);
}

#[test]
fn the_secret_store_finds_secrets_by_identifier_and_by_client() {
    let one = secret_for("aardvark", b"one");
    let two = secret_for("cicada", b"two");
    let mut repository = InMemoryClientSecretRepository::default();
    repository.insert(one.clone());
    repository.insert(two.clone());
    assert_eq!(repository.find_by_id(one.id).unwrap(), Some(one.clone()));
    assert_eq!(repository.find_by_id(two.id).unwrap(), Some(two.clone()));
    assert_eq!(repository.find_by_id(0).unwrap(), None);
    assert_eq!(repository.find_all_by_client_id("aardvark").unwrap(), vec![one.clone()]);
    assert_eq!(repository.find_all_by_client(&ClientId::from(String::from("cicada"))).unwrap(), vec![two.clone()]);
    assert_eq!(repository.find_all_by_client_id("badger").unwrap(), Vec::<ClientSecret>::new());
    let replacement = ClientSecret { id: one.id, client_id: ClientId::from(String::from("cicada")), hashed_secret: "x".into() };
    repository.insert(replacement.clone());
    assert_eq!(repository.find_by_id(one.id).unwrap(), Some(replacement.clone()));
    assert_eq!(repository.find_all_by_client_id("aardvark").unwrap(), Vec::<ClientSecret>::new());
    assert_eq!(repository.find_all_by_client_id("cicada").unwrap(), vec![replacement, two]);
}

#[test]
fn the_seeded_secret_store_holds_one_secret() {
    let repository = InMemoryClientSecretRepository::new();
    let secrets = repository.find_all_by_client_id("aardvark").unwrap();
    assert_eq!(secrets.len(), 1);
    assert_eq!(secrets[0].client_id, ClientId::from(String::from("aardvark")));
    assert_eq!(repository.find_by_id(secrets[0].id).unwrap(), Some(secrets[0].clone()));
    assert!(repository.find_all_by_client_id("badger").unwrap().is_empty());
}

#[test]
fn the_seeded_configuration_store_holds_two_clients() {
    let repository = InMemoryClientConfigurationRepository::new();
    assert_eq!(repository.find_by_client_id("aardvark").unwrap(), Some(seeded_confidential_configuration()));
    assert_eq!(repository.find_by_id(&ClientId::from(String::from("badger"))).unwrap(), Some(seeded_public_configuration()));
    assert_eq!(repository.find_by_client_id("cicada").unwrap(), None);
    assert_eq!(InMemoryClientConfigurationRepository::default().find_by_client_id("aardvark").unwrap(), None);
}

#[test]
fn a_configuration_is_kept_under_the_identifier_of_its_client() {
    let (client_id, configuration) = InMemoryClientConfigurationRepository::create_entry(seeded_public_configuration());
    assert_eq!(client_id, ClientId::from(String::from("badger")));
    assert_eq!(configuration, seeded_public_configuration());
    let mut repository = InMemoryClientConfigurationRepository::default();
    repository.insert(seeded_public_configuration());
    assert_eq!(repository.find_by_client_id("badger").unwrap(), Some(seeded_public_configuration()));
    let mut changed = seeded_public_configuration();
    changed.client_type = ClientType::Confidential;
    repository.insert(changed);
    assert_eq!(repository.find_by_client_id("badger").unwrap().unwrap().client_type, ClientType::Confidential);
}

#[test]
fn client_identifiers_wrap_a_string() {
    let id = ClientId::from(String::from("aardvark"));
    assert_eq!(id.value(), "aardvark");
    assert_eq!(ClientId::from(&String::from("aardvark")), id);
    assert_ne!(id, ClientId::from(String::from("badger")));
    assert_eq!(id.clone().into_value(), "aardvark");
}

#[test]
fn configurations_are_equal_whatever_the_order_of_their_lists() {
    let one = ClientConfiguration {
        client_id: ClientId::from(String::from("aardvark")),
        client_type: ClientType::Confidential,
        redirect_uris: vec!["https://a".into(), "https://b".into()],
        allowed_scopes: vec![Scope::from("basic"), Scope::from("read")],
        allowed_actions: vec![ClientAction::Introspect],
        allowed_grant_types: vec![GrantType::Password],
    };
    let other = ClientConfiguration {
        client_id: ClientId::from(String::from("aardvark")),
        client_type: ClientType::Confidential,
        redirect_uris: vec!["https://b".into(), "https://a".into(), "https://b".into()],
        allowed_scopes: vec![Scope::from("read"), Scope::from("basic")],
        allowed_actions: vec![ClientAction::Introspect, ClientAction::Introspect],
        allowed_grant_types: vec![GrantType::Password],
    };
    assert_eq!(one, other);
    assert_eq!(one.clone(), one);
    let mut changed = one.clone();
    changed.client_type = ClientType::Public;
    assert_ne!(changed, one);
    let mut changed = one.clone();
    changed.client_id = ClientId::from(String::from("badger"));
    assert_ne!(changed, one);
    let mut changed = one.clone();
    changed.redirect_uris.pop();
    assert_ne!(changed, one);
    let mut changed = one.clone();
    changed.allowed_scopes.push(Scope::from("write"));
    assert_ne!(changed, one);
    let mut changed = one.clone();
    changed.allowed_actions.clear();
    assert_ne!(changed, one);
    let mut changed = one.clone();
    changed.allowed_grant_types.clear();
    assert_ne!(changed, one);
}
