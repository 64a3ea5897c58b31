//! Telling which client makes a request.
use argon2::{Argon2, PasswordHash, PasswordVerifier};
use vstd::prelude::*;
use vstd::string::*;

use crate::client::configuration::{ClientConfigurationRepository, ClientConfigurationView};
use crate::client::secret::{
    argon2_verifies, lemma_secrets_of_name_the_client, secret_views, secrets_of, ClientSecret,
    ClientSecretRepository, ClientSecretView,
};
use crate::client::{ClientType, ConfidentialClient, PublicClient};

verus! {

/// `PasswordHash::new` of the crate `password_hash` followed by
/// `Argon2::default().verify_password` of the crate `argon2`.
///
/// A string that is no password hash verifies nothing. For one that is, the crate
/// recomputes the hash of `secret` with the parameters and the salt that the string records
/// and compares the two, so the answer depends on the two arguments alone; the contract
/// gives it the name `argon2_verifies`. The memory that the computation takes is the one
/// that the string asks for.
#[verifier::external_body]
fn verify_secret(hashed_secret: &str, secret: &[u8]) -> (verified: bool)
    ensures
        verified == argon2_verifies(hashed_secret@, secret@),
{
    match PasswordHash::new(hashed_secret) {
        Err(_) => false,
        Ok(hash) => Argon2::default().verify_password(secret, &hash).is_ok(),
    }
}

/// The first of `secrets` that `client_secret` verifies against.
pub open spec fn first_verified(secrets: Seq<ClientSecretView>, client_secret: Seq<u8>) -> Option<
    ClientSecretView,
>
    decreases secrets.len(),
{
    if secrets.len() == 0 {
        None
    } else if argon2_verifies(secrets.first().hashed_secret, client_secret) {
        Some(secrets.first())
    } else {
        first_verified(secrets.drop_first(), client_secret)
    }
}

/// Whether `client_secret` verifies against one of `secrets`.
pub open spec fn verifies_against_any(secrets: Seq<ClientSecretView>, client_secret: Seq<u8>) -> bool {
    exists|i: int|
        0 <= i < secrets.len() && argon2_verifies((#[trigger] secrets[i]).hashed_secret, client_secret)
}

/// A first verified secret is found exactly where the client secret verifies against one
/// of the secrets, and it is one of them that the client secret verifies against.
pub proof fn lemma_first_verified(secrets: Seq<ClientSecretView>, client_secret: Seq<u8>)
    ensures
        first_verified(secrets, client_secret) is Some <==> verifies_against_any(
            secrets,
            client_secret,
        ),
        first_verified(secrets, client_secret) matches Some(secret) ==> secrets.contains(secret)
            && argon2_verifies(secret.hashed_secret, client_secret),
    decreases secrets.len(),
{
    if secrets.len() == 0 {
    } else if argon2_verifies(secrets.first().hashed_secret, client_secret) {
        assert(secrets[0] == secrets.first());
    } else {
        let rest = secrets.drop_first();
        lemma_first_verified(rest, client_secret);
        if verifies_against_any(rest, client_secret) {
            let i = choose|i: int|
                0 <= i < rest.len() && argon2_verifies((#[trigger] rest[i]).hashed_secret, client_secret);
            assert(secrets[i + 1] == rest[i]);
        }
        if verifies_against_any(secrets, client_secret) {
            let i = choose|i: int|
                0 <= i < secrets.len() && argon2_verifies(
                    (#[trigger] secrets[i]).hashed_secret,
                    client_secret,
                );
            assert(i > 0);
            assert(rest[i - 1] == secrets[i]);
        }
        if first_verified(rest, client_secret) is Some {
            let secret = first_verified(rest, client_secret)->0;
            let i = choose|i: int| 0 <= i < rest.len() && rest[i] == secret;
            assert(secrets[i + 1] == secret);
        }
    }
}

/// The first of `secrets` that `client_secret` verifies against. The search stops at the
/// first that does, and hashes nothing for the secrets behind it.
pub fn find_verified<'a>(secrets: &'a Vec<ClientSecret>, client_secret: &[u8]) -> (found: Option<
    &'a ClientSecret,
>)
    ensures
        match found {
            Some(secret) => first_verified(secret_views(secrets@), client_secret@) == Some(secret@),
            None => first_verified(secret_views(secrets@), client_secret@) is None,
        },
{
    let ghost all = secret_views(secrets@);
    let mut i: usize = 0;
    assert(all.skip(0) =~= all);
    while i < secrets.len()
        invariant
            i <= secrets@.len(),
            all == secret_views(secrets@),
            first_verified(all, client_secret@) == first_verified(all.skip(i as int), client_secret@),
        decreases secrets@.len() - i,
    {
        let secret = &secrets[i];
        proof {
            assert(all.skip(i as int).first() == secret@);
            assert(all.skip(i as int).drop_first() =~= all.skip(i as int + 1));
        }
        if verify_secret(secret.hashed_secret.as_str(), client_secret) {
            return Some(secret);
        }
        i += 1;
    }
    None
}

/// What an authentication found, as contracts see it.
pub open spec fn public_client_view(client: Option<PublicClient>) -> Option<ClientConfigurationView> {
    match client {
        Some(client) => Some(client@),
        None => None,
    }
}

/// What an authentication found, as contracts see it.
pub open spec fn confidential_client_view(client: Option<ConfidentialClient>) -> Option<
    ClientConfigurationView,
> {
    match client {
        Some(client) => Some(client@),
        None => None,
    }
}

/// The configuration, where it is one of a client of the given type.
pub open spec fn of_type(configuration: Option<ClientConfigurationView>, client_type: ClientType) -> Option<
    ClientConfigurationView,
> {
    match configuration {
        Some(c) => if c.client_type == client_type {
            Some(c)
        } else {
            None
        },
        None => None,
    }
}

/// Tells which client a request comes from.
pub trait ClientAuthenticator {
    /// Whether the authenticator works from its own memory alone. Such an authenticator
    /// never fails, and what it answers is `public_client` and `confidential_client`. Of
    /// one that leaves this at `false`, nothing is known but the kind of the clients that
    /// it returns.
    open spec fn in_memory(&self) -> bool {
        false
    }

    /// The public client that an in-memory authenticator knows by an identifier.
    open spec fn public_client(&self, client_id: Seq<char>) -> Option<ClientConfigurationView> {
        None
    }

    /// The confidential client that an in-memory authenticator lets in with an identifier
    /// and a secret.
    open spec fn confidential_client(&self, client_id: Seq<char>, client_secret: Seq<u8>) -> Option<
        ClientConfigurationView,
    > {
        None
    }

    /// `Ok(None)` says that no public client of that identifier is known, and does not
    /// tell an unknown client from a confidential one.
    fn authenticate_as_public_client(&self, client_id: &str) -> (outcome: Result<
        Option<PublicClient>,
        std::io::Error,
    >)
        ensures
            self.in_memory() ==> (outcome matches Ok(client) && public_client_view(client)
                == self.public_client(client_id@)),
            outcome matches Ok(Some(client)) ==> client@.client_type == ClientType::Public,
    ;

    /// `Ok(None)` says that the credentials let no confidential client in, whatever the
    /// reason. An error says that a store could not be asked.
    fn authenticate_as_confidential_client(&self, client_id: &str, client_secret: &[u8]) -> (outcome:
        Result<Option<ConfidentialClient>, std::io::Error>)
        ensures
            self.in_memory() ==> (outcome matches Ok(client) && confidential_client_view(client)
                == self.confidential_client(client_id@, client_secret@)),
            outcome matches Ok(Some(client)) ==> client@.client_type == ClientType::Confidential,
    ;
}

/// Authenticates clients against a store of secrets and a store of configurations.
///
/// For a confidential client the secrets come first: the secret that was sent is verified
/// against the secrets on file for the identifier, and only the owner of the first secret
/// that verifies has its configuration looked up. So the configuration store is never
/// asked on behalf of credentials that did not verify.
pub struct ClientAuthenticationService<S: ClientSecretRepository, C: ClientConfigurationRepository> {
    secret_repository: S,
    client_configuration_repository: C,
}

impl<S: ClientSecretRepository, C: ClientConfigurationRepository> ClientAuthenticationService<S, C> {
    /// The store of secrets that the service asks.
    pub closed spec fn secret_repository(&self) -> S {
        self.secret_repository
    }

    /// The store of configurations that the service asks.
    pub closed spec fn client_configuration_repository(&self) -> C {
        self.client_configuration_repository
    }

    /// A service that asks the two given stores.
    pub fn new(secret_repository: S, client_configuration_repository: C) -> (service: Self)
        ensures
            service.secret_repository() == secret_repository,
            service.client_configuration_repository() == client_configuration_repository,
    {
        Self { secret_repository, client_configuration_repository }
    }

    /// A client with a correct secret among the secrets on file for it is let in, with
    /// the configuration on file for it, provided that this configuration is one of a
    /// confidential client.
    pub proof fn lemma_correct_secret_authenticates(
        &self,
        client_id: Seq<char>,
        client_secret: Seq<u8>,
    )
        requires
            self.in_memory(),
            verifies_against_any(secrets_of(self.secret_repository().secrets(), client_id), client_secret),
            self.client_configuration_repository().configuration_of(client_id) matches Some(c)
                && c.client_type == ClientType::Confidential,
        ensures
            self.confidential_client(client_id, client_secret)
                == self.client_configuration_repository().configuration_of(client_id),
    {
        let secrets = secrets_of(self.secret_repository().secrets(), client_id);
        lemma_first_verified(secrets, client_secret);
        lemma_secrets_of_name_the_client(self.secret_repository().secrets(), client_id);
        let matched = first_verified(secrets, client_secret)->0;
        let i = choose|i: int| 0 <= i < secrets.len() && secrets[i] == matched;
        assert(secrets[i].client_id == client_id);
    }

    /// A secret that verifies against none of the secrets on file for a client lets
    /// nobody in, however many secrets are on file.
    pub proof fn lemma_incorrect_secret_is_refused(
        &self,
        client_id: Seq<char>,
        client_secret: Seq<u8>,
    )
        requires
            self.in_memory(),
            !verifies_against_any(secrets_of(self.secret_repository().secrets(), client_id), client_secret),
        ensures
            self.confidential_client(client_id, client_secret) is None,
    {
        lemma_first_verified(secrets_of(self.secret_repository().secrets(), client_id), client_secret);
    }

    /// A client whose configuration says that it is public is never let in as a
    /// confidential client, whatever secret comes with its identifier.
    pub proof fn lemma_public_client_is_never_confidential(
        &self,
        client_id: Seq<char>,
        client_secret: Seq<u8>,
    )
        requires
            self.in_memory(),
            self.client_configuration_repository().configuration_of(client_id) matches Some(c)
                && c.client_type == ClientType::Public,
        ensures
            self.confidential_client(client_id, client_secret) is None,
    {
        let secrets = secrets_of(self.secret_repository().secrets(), client_id);
        lemma_first_verified(secrets, client_secret);
        lemma_secrets_of_name_the_client(self.secret_repository().secrets(), client_id);
        if first_verified(secrets, client_secret) is Some {
            let matched = first_verified(secrets, client_secret)->0;
            let i = choose|i: int| 0 <= i < secrets.len() && secrets[i] == matched;
            assert(secrets[i].client_id == client_id);
        }
    }
}

impl<S: ClientSecretRepository, C: ClientConfigurationRepository> ClientAuthenticator for ClientAuthenticationService<
    S,
    C,
> {
    open spec fn in_memory(&self) -> bool {
        self.secret_repository().in_memory() && self.client_configuration_repository().in_memory()
    }

    open spec fn public_client(&self, client_id: Seq<char>) -> Option<ClientConfigurationView> {
        of_type(
            self.client_configuration_repository().configuration_of(client_id),
            ClientType::Public,
        )
    }

    open spec fn confidential_client(&self, client_id: Seq<char>, client_secret: Seq<u8>) -> Option<
        ClientConfigurationView,
    > {
        match first_verified(secrets_of(self.secret_repository().secrets(), client_id), client_secret) {
            Some(secret) => of_type(
                self.client_configuration_repository().configuration_of(secret.client_id),
                ClientType::Confidential,
            ),
            None => None,
        }
    }

    fn authenticate_as_public_client(&self, client_id: &str) -> (outcome: Result<
        Option<PublicClient>,
        std::io::Error,
    >) {
        match self.client_configuration_repository.find_by_client_id(client_id) {
            Err(error) => Err(error),
            Ok(None) => Ok(None),
            Ok(Some(configuration)) => Ok(PublicClient::new(configuration)),
        }
    }

    fn authenticate_as_confidential_client(&self, client_id: &str, client_secret: &[u8]) -> (outcome:
        Result<Option<ConfidentialClient>, std::io::Error>) {
        let secrets = match self.secret_repository.find_all_by_client_id(client_id) {
            Err(error) => {
                return Err(error);
            },
            Ok(secrets) => secrets,
        };
        let owner = match find_verified(&secrets, client_secret) {
            None => {
                return Ok(None);
            },
            Some(secret) => &secret.client_id,
        };
        match self.client_configuration_repository.find_by_id(owner) {
            Err(error) => Err(error),
            Ok(None) => Ok(None),
            Ok(Some(configuration)) => Ok(ConfidentialClient::new(configuration)),
        }
    }
}

} // verus!
