//! The stage that settles, before anything else is looked at, which client a request
//! comes from.
use vstd::prelude::*;
use vstd::string::*;
use vstd::utf8::encode_utf8;

use crate::client::authentication::ClientAuthenticator;
use crate::client::{
    ClientPrincipal, ClientPrincipalView, ClientType, ConfidentialClient, PublicClient,
};
use crate::http::{first_field, first_value, urlencoded_pairs, BasicCredentials, StatusCode};

verus! {

/// What comes of an attempt to authenticate a confidential client: a store that failed is
/// answered with 500, credentials that let nobody in with 401.
pub fn confidential_outcome(outcome: Result<Option<ConfidentialClient>, std::io::Error>) -> (authenticated:
    Result<ConfidentialClient, StatusCode>)
    ensures
        match outcome {
            Err(_) => authenticated == Err::<ConfidentialClient, StatusCode>(
                StatusCode::InternalServerError,
            ),
            Ok(None) => authenticated == Err::<ConfidentialClient, StatusCode>(StatusCode::Unauthorized),
            Ok(Some(client)) => authenticated == Ok::<ConfidentialClient, StatusCode>(client),
        },
{
    match outcome {
        Err(_) => Err(StatusCode::InternalServerError),
        Ok(None) => Err(StatusCode::Unauthorized),
        Ok(Some(client)) => Ok(client),
    }
}

/// What comes of an attempt to authenticate a public client: a store that failed is
/// answered with 500, an identifier that no public client bears with 401.
pub fn public_outcome(outcome: Result<Option<PublicClient>, std::io::Error>) -> (authenticated: Result<
    PublicClient,
    StatusCode,
>)
    ensures
        match outcome {
            Err(_) => authenticated == Err::<PublicClient, StatusCode>(StatusCode::InternalServerError),
            Ok(None) => authenticated == Err::<PublicClient, StatusCode>(StatusCode::Unauthorized),
            Ok(Some(client)) => authenticated == Ok::<PublicClient, StatusCode>(client),
        },
{
    match outcome {
        Err(_) => Err(StatusCode::InternalServerError),
        Ok(None) => Err(StatusCode::Unauthorized),
        Ok(Some(client)) => Ok(client),
    }
}

/// The secret that Basic credentials carry: the bytes of their password.
pub open spec fn secret_of(credentials: BasicCredentials) -> Seq<u8> {
    encode_utf8(credentials.password@)
}

/// What an in-memory authenticator makes of Basic credentials.
pub open spec fn spec_confidential_client_authentication<C: ClientAuthenticator>(
    authenticator: C,
    maybe_basic_auth: Option<BasicCredentials>,
) -> Result<ClientPrincipalView, StatusCode> {
    match maybe_basic_auth {
        None => Err(StatusCode::Unauthorized),
        Some(basic) => match authenticator.confidential_client(basic.username@, secret_of(basic)) {
            Some(configuration) => Ok(ClientPrincipalView::Confidential(configuration)),
            None => Err(StatusCode::Unauthorized),
        },
    }
}

/// Lets a request pass only if it comes with the Basic credentials of a confidential
/// client.
pub fn require_confidential_client_authentication<C: ClientAuthenticator>(
    authenticator: &C,
    maybe_basic_auth: Option<&BasicCredentials>,
) -> (authenticated: Result<ConfidentialClient, StatusCode>)
    ensures
        maybe_basic_auth is None ==> authenticated == Err::<ConfidentialClient, StatusCode>(
            StatusCode::Unauthorized,
        ),
        authenticated matches Err(status) ==> status == StatusCode::Unauthorized || status
            == StatusCode::InternalServerError,
        authenticated matches Ok(client) ==> client@.client_type == ClientType::Confidential,
        authenticator.in_memory() ==> match spec_confidential_client_authentication(
            *authenticator,
            match maybe_basic_auth {
                Some(basic) => Some(*basic),
                None => None,
            },
        ) {
            Ok(principal) => authenticated matches Ok(client) && client@ == principal.configuration(),
            Err(status) => authenticated == Err::<ConfidentialClient, StatusCode>(status),
        },
{
    match maybe_basic_auth {
        None => Err(StatusCode::Unauthorized),
        Some(basic) => confidential_outcome(
            authenticator.authenticate_as_confidential_client(
                basic.username.as_str(),
                basic.password.as_str().as_bytes(),
            ),
        ),
    }
}

/// The client identifier that the body of a request names, where it names one.
pub open spec fn body_client_id(body: Seq<u8>) -> Option<Seq<char>> {
    first_value(urlencoded_pairs(body), "client_id"@)
}

/// Which client an in-memory authenticator makes out behind a request. Credentials come
/// one way or the other: as Basic credentials, for a confidential client, or as a client
/// identifier in the body, for a public one. A request that brings both, or neither, is
/// turned down.
pub open spec fn spec_client_authentication<C: ClientAuthenticator>(
    authenticator: C,
    maybe_basic_auth: Option<BasicCredentials>,
    maybe_client_id: Option<Seq<char>>,
) -> Result<ClientPrincipalView, StatusCode> {
    match (maybe_basic_auth, maybe_client_id) {
        (Some(_), Some(_)) => Err(StatusCode::Unauthorized),
        (None, None) => Err(StatusCode::Unauthorized),
        (Some(basic), None) => match authenticator.confidential_client(
            basic.username@,
            secret_of(basic),
        ) {
            Some(configuration) => Ok(ClientPrincipalView::Confidential(configuration)),
            None => Err(StatusCode::Unauthorized),
        },
        (None, Some(client_id)) => match authenticator.public_client(client_id) {
            Some(configuration) => Ok(ClientPrincipalView::Public(configuration)),
            None => Err(StatusCode::Unauthorized),
        },
    }
}

/// Settles which client a token request comes from, from its Basic credentials and its
/// body. The body is read, not consumed: validation reads the same fields afterwards.
pub fn require_client_authentication<C: ClientAuthenticator>(
    authenticator: &C,
    maybe_basic_auth: Option<&BasicCredentials>,
    body: &[u8],
) -> (authenticated: Result<ClientPrincipal, StatusCode>)
    ensures
        maybe_basic_auth is Some && body_client_id(body@) is Some ==> authenticated == Err::<
            ClientPrincipal,
            StatusCode,
        >(StatusCode::Unauthorized),
        maybe_basic_auth is None && body_client_id(body@) is None ==> authenticated == Err::<
            ClientPrincipal,
            StatusCode,
        >(StatusCode::Unauthorized),
        authenticated matches Err(status) ==> status == StatusCode::Unauthorized || status
            == StatusCode::InternalServerError,
        authenticated matches Ok(principal) ==> match principal@ {
            ClientPrincipalView::Confidential(configuration) => maybe_basic_auth is Some
                && configuration.client_type == ClientType::Confidential,
            ClientPrincipalView::Public(configuration) => maybe_basic_auth is None
                && configuration.client_type == ClientType::Public,
        },
        authenticator.in_memory() ==> match spec_client_authentication(
            *authenticator,
            match maybe_basic_auth {
                Some(basic) => Some(*basic),
                None => None,
            },
            body_client_id(body@),
        ) {
            Ok(principal) => authenticated matches Ok(client) && client@ == principal,
            Err(status) => authenticated == Err::<ClientPrincipal, StatusCode>(status),
        },
{
    let maybe_client_id = first_field(body, "client_id");
    match (maybe_basic_auth, maybe_client_id) {
        (Some(_), Some(_)) => Err(StatusCode::Unauthorized),
        (None, None) => Err(StatusCode::Unauthorized),
        (Some(basic), None) => {
            match confidential_outcome(
                authenticator.authenticate_as_confidential_client(
                    basic.username.as_str(),
                    basic.password.as_str().as_bytes(),
                ),
            ) {
                Ok(client) => Ok(ClientPrincipal::Confidential(client)),
                Err(status) => Err(status),
            }
        },
        (None, Some(client_id)) => {
            match public_outcome(authenticator.authenticate_as_public_client(client_id.as_str())) {
                Ok(client) => Ok(ClientPrincipal::Public(client)),
                Err(status) => Err(status),
            }
        },
    }
}

} // verus!
