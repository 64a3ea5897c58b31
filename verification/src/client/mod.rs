//! OAuth clients: who they are and what they may do.
use vstd::prelude::*;
use vstd::string::*;

use crate::client::configuration::{ClientConfiguration, ClientConfigurationView};
use crate::scope::Scope;
use crate::util::value_struct::ValueStruct;

pub mod authentication;
pub mod configuration;
pub mod middleware;
pub mod secret;

verus! {

/// The identifier of a client. Two identifiers are equal when they spell the same.
#[non_exhaustive]
#[derive(Debug, Hash)]
pub struct ClientId(String);

impl PartialEq for ClientId {
    fn eq(&self, other: &Self) -> (same: bool) {
        self.0 == other.0
    }
}

impl Eq for ClientId {

}

impl vstd::std_specs::cmp::PartialEqSpecImpl for ClientId {
    open spec fn obeys_eq_spec() -> bool {
        true
    }

    open spec fn eq_spec(&self, other: &Self) -> bool {
        self@ == other@
    }
}

impl View for ClientId {
    type V = Seq<char>;

    closed spec fn view(&self) -> Seq<char> {
        self.0@
    }
}

impl ValueStruct for ClientId {
    type ValueType = String;

    closed spec fn wrapped(&self) -> String {
        self.0
    }

    #[inline]
    fn value(&self) -> (value: &String)
        ensures
            value@ == self@,
    {
        &self.0
    }

    #[inline]
    fn into_value(self) -> (value: String)
        ensures
            value@ == self@,
    {
        self.0
    }
}

impl Clone for ClientId {
    fn clone(&self) -> (copy: Self)
        ensures
            copy@ == self@,
    {
        ClientId(self.0.clone())
    }
}

impl From<String> for ClientId {
    fn from(value: String) -> (id: Self)
        ensures
            id@ == value@,
    {
        ClientId(value)
    }
}

impl From<&String> for ClientId {
    fn from(value: &String) -> (id: Self)
        ensures
            id@ == value@,
    {
        ClientId(value.clone())
    }
}

impl vstd::std_specs::convert::FromSpecImpl<&String> for ClientId {
    open spec fn obeys_from_spec() -> bool {
        false
    }

    open spec fn from_spec(value: &String) -> Self {
        arbitrary()
    }
}

impl vstd::std_specs::convert::FromSpecImpl<String> for ClientId {
    open spec fn obeys_from_spec() -> bool {
        true
    }

    closed spec fn from_spec(value: String) -> Self {
        ClientId(value)
    }
}

/// Whether a client can keep a secret.
#[derive(Debug, Clone, Copy, PartialEq, Eq, Hash, Structural)]
pub enum ClientType {
    /// A client that holds a secret and proves itself with it.
    Confidential,
    /// A client that is known by its identifier alone.
    Public,
}

/// What a client may do besides asking for tokens.
#[derive(Debug, Clone, Copy, PartialEq, Eq, Hash, Structural)]
pub enum ClientAction {
    /// Asking whether a token is active.
    Introspect,
}

/// The ways in which a client can ask for a token.
#[derive(Debug, Clone, Copy, PartialEq, Eq, Hash, Structural)]
pub enum GrantType {
    /// The resource owner's user name and password.
    Password,
}

impl GrantType {
    /// The grant type that a `grant_type` parameter names, or, for a value that names none,
    /// the words that say so.
    pub open spec fn spec_from_str(value: Seq<char>) -> Result<GrantType, Seq<char>> {
        if value == "password"@ {
            Ok(GrantType::Password)
        } else {
            Err("unsupported: "@ + value)
        }
    }

    /// The name of the grant type as error descriptions spell it.
    pub open spec fn spec_label(self) -> Seq<char> {
        match self {
            GrantType::Password => "Password"@,
        }
    }

    /// The name of the grant type as error descriptions spell it.
    pub fn label(&self) -> (label: &'static str)
        ensures
            label@ == self.spec_label(),
    {
        match self {
            GrantType::Password => "Password",
        }
    }
}

impl std::str::FromStr for GrantType {
    type Err = String;

    /// Reads the value of a `grant_type` parameter.
    fn from_str(value: &str) -> (parsed: Result<Self, String>)
        ensures
            match GrantType::spec_from_str(value@) {
                Ok(grant_type) => parsed == Ok::<GrantType, String>(grant_type),
                Err(message) => parsed matches Err(text) && text@ == message,
            },
    {
        if crate::text::str_equals(value, "password") {
            Ok(GrantType::Password)
        } else {
            Err("unsupported: ".to_owned().concat(value))
        }
    }
}

/// A client that has proved itself with a secret. Two of them are equal when their
/// configurations are.
#[derive(Debug)]
pub struct ConfidentialClient {
    configuration: ClientConfiguration,
}

/// A client that was recognised by its identifier. Two of them are equal when their
/// configurations are.
#[derive(Debug)]
pub struct PublicClient {
    configuration: ClientConfiguration,
}

impl PartialEq for ConfidentialClient {
    fn eq(&self, other: &Self) -> (same: bool) {
        self.configuration == other.configuration
    }
}

impl Eq for ConfidentialClient {

}

impl vstd::std_specs::cmp::PartialEqSpecImpl for ConfidentialClient {
    open spec fn obeys_eq_spec() -> bool {
        true
    }

    open spec fn eq_spec(&self, other: &Self) -> bool {
        self@ == other@
    }
}

impl PartialEq for PublicClient {
    fn eq(&self, other: &Self) -> (same: bool) {
        self.configuration == other.configuration
    }
}

impl Eq for PublicClient {

}

impl vstd::std_specs::cmp::PartialEqSpecImpl for PublicClient {
    open spec fn obeys_eq_spec() -> bool {
        true
    }

    open spec fn eq_spec(&self, other: &Self) -> bool {
        self@ == other@
    }
}

impl View for ConfidentialClient {
    type V = ClientConfigurationView;

    /// The configuration that the client was authenticated with.
    closed spec fn view(&self) -> ClientConfigurationView {
        self.configuration@
    }
}

impl ConfidentialClient {
    #[verifier::type_invariant]
    spec fn is_confidential(self) -> bool {
        self.configuration.client_type == ClientType::Confidential
    }

    /// The client of a confidential configuration; none of a public one.
    pub fn new(configuration: ClientConfiguration) -> (client: Option<Self>)
        ensures
            client is Some <==> configuration@.client_type == ClientType::Confidential,
            client matches Some(c) ==> c@ == configuration@,
    {
        match configuration.client_type {
            ClientType::Confidential => Some(ConfidentialClient { configuration }),
            ClientType::Public => None,
        }
    }

    /// The configuration of the client, which is one of a confidential client.
    pub fn configuration(&self) -> (configuration: &ClientConfiguration)
        ensures
            configuration@ == self@,
            configuration@.client_type == ClientType::Confidential,
    {
        proof {
            use_type_invariant(self);
        }
        &self.configuration
    }

    /// Whether the client may perform `action`.
    pub fn can_perform_action(&self, action: &ClientAction) -> (allowed: bool)
        ensures
            allowed == self@.allowed_actions.contains(*action),
            self@.client_type == ClientType::Confidential,
    {
        proof {
            use_type_invariant(self);
        }
        self.configuration.allows_action(action)
    }

    /// Whether the client may use `grant_type`.
    pub fn can_perform_grant_type(&self, grant_type: &GrantType) -> (allowed: bool)
        ensures
            allowed == self@.allowed_grant_types.contains(*grant_type),
            self@.client_type == ClientType::Confidential,
    {
        proof {
            use_type_invariant(self);
        }
        self.configuration.allows_grant_type(grant_type)
    }

    /// Whether the client may be given `scope`.
    pub fn can_be_issued(&self, scope: &Scope) -> (allowed: bool)
        ensures
            allowed == self@.allowed_scopes.contains(scope@),
            self@.client_type == ClientType::Confidential,
    {
        proof {
            use_type_invariant(self);
        }
        self.configuration.allows_scope(scope)
    }
}

impl Clone for ConfidentialClient {
    fn clone(&self) -> (copy: Self)
        ensures
            copy@ == self@,
    {
        proof {
            use_type_invariant(self);
        }
        ConfidentialClient { configuration: self.configuration.clone() }
    }
}

impl View for PublicClient {
    type V = ClientConfigurationView;

    /// The configuration that the client was recognised by.
    closed spec fn view(&self) -> ClientConfigurationView {
        self.configuration@
    }
}

impl PublicClient {
    #[verifier::type_invariant]
    spec fn is_public(self) -> bool {
        self.configuration.client_type == ClientType::Public
    }

    /// The client of a public configuration; none of a confidential one.
    pub fn new(configuration: ClientConfiguration) -> (client: Option<Self>)
        ensures
            client is Some <==> configuration@.client_type == ClientType::Public,
            client matches Some(c) ==> c@ == configuration@,
    {
        match configuration.client_type {
            ClientType::Public => Some(PublicClient { configuration }),
            ClientType::Confidential => None,
        }
    }

    /// The configuration of the client, which is one of a public client.
    pub fn configuration(&self) -> (configuration: &ClientConfiguration)
        ensures
            configuration@ == self@,
            configuration@.client_type == ClientType::Public,
    {
        proof {
            use_type_invariant(self);
        }
        &self.configuration
    }

    /// Whether the client may perform `action`.
    pub fn can_perform_action(&self, action: &ClientAction) -> (allowed: bool)
        ensures
            allowed == self@.allowed_actions.contains(*action),
            self@.client_type == ClientType::Public,
    {
        proof {
            use_type_invariant(self);
        }
        self.configuration.allows_action(action)
    }

    /// Whether the client may use `grant_type`.
    pub fn can_perform_grant_type(&self, grant_type: &GrantType) -> (allowed: bool)
        ensures
            allowed == self@.allowed_grant_types.contains(*grant_type),
            self@.client_type == ClientType::Public,
    {
        proof {
            use_type_invariant(self);
        }
        self.configuration.allows_grant_type(grant_type)
    }

    /// Whether the client may be given `scope`.
    pub fn can_be_issued(&self, scope: &Scope) -> (allowed: bool)
        ensures
            allowed == self@.allowed_scopes.contains(scope@),
            self@.client_type == ClientType::Public,
    {
        proof {
            use_type_invariant(self);
        }
        self.configuration.allows_scope(scope)
    }
}

impl Clone for PublicClient {
    fn clone(&self) -> (copy: Self)
        ensures
            copy@ == self@,
    {
        proof {
            use_type_invariant(self);
        }
        PublicClient { configuration: self.configuration.clone() }
    }
}

/// The client that a request was made by. Two principals are equal when they are of the
/// same kind and their configurations are equal.
#[derive(Debug)]
pub enum ClientPrincipal {
    Confidential(ConfidentialClient),
    Public(PublicClient),
}

impl PartialEq for ClientPrincipal {
    fn eq(&self, other: &Self) -> (same: bool) {
        match (self, other) {
            (ClientPrincipal::Confidential(a), ClientPrincipal::Confidential(b)) => a == b,
            (ClientPrincipal::Public(a), ClientPrincipal::Public(b)) => a == b,
            _ => false,
        }
    }
}

impl Eq for ClientPrincipal {

}

impl vstd::std_specs::cmp::PartialEqSpecImpl for ClientPrincipal {
    open spec fn obeys_eq_spec() -> bool {
        true
    }

    open spec fn eq_spec(&self, other: &Self) -> bool {
        self@ == other@
    }
}

/// A principal as contracts see it: the kind of the client and its configuration.
pub enum ClientPrincipalView {
    Confidential(ClientConfigurationView),
    Public(ClientConfigurationView),
}

impl ClientPrincipalView {
    /// The configuration of the client, whatever its kind.
    pub open spec fn configuration(self) -> ClientConfigurationView {
        match self {
            ClientPrincipalView::Confidential(configuration) => configuration,
            ClientPrincipalView::Public(configuration) => configuration,
        }
    }
}

impl View for ClientPrincipal {
    type V = ClientPrincipalView;

    open spec fn view(&self) -> ClientPrincipalView {
        match self {
            ClientPrincipal::Confidential(client) => ClientPrincipalView::Confidential(client@),
            ClientPrincipal::Public(client) => ClientPrincipalView::Public(client@),
        }
    }
}

impl Clone for ClientPrincipal {
    fn clone(&self) -> (copy: Self)
        ensures
            copy@ == self@,
    {
        match self {
            ClientPrincipal::Confidential(client) => ClientPrincipal::Confidential(client.clone()),
            ClientPrincipal::Public(client) => ClientPrincipal::Public(client.clone()),
        }
    }
}

impl ClientPrincipal {
    /// The principal of a configuration, of the kind that the configuration names.
    pub fn new_principal(configuration: ClientConfiguration) -> (principal: ClientPrincipal)
        ensures
            principal@ == match configuration@.client_type {
                ClientType::Confidential => ClientPrincipalView::Confidential(configuration@),
                ClientType::Public => ClientPrincipalView::Public(configuration@),
            },
    {
        match configuration.client_type {
            ClientType::Confidential => ClientPrincipal::Confidential(
                ConfidentialClient { configuration },
            ),
            ClientType::Public => ClientPrincipal::Public(PublicClient { configuration }),
        }
    }

    /// Whether the client may use `grant_type`.
    pub fn can_perform_grant_type(&self, grant_type: &GrantType) -> (allowed: bool)
        ensures
            allowed == self@.configuration().allowed_grant_types.contains(*grant_type),
    {
        match self {
            ClientPrincipal::Confidential(client) => client.can_perform_grant_type(grant_type),
            ClientPrincipal::Public(client) => client.can_perform_grant_type(grant_type),
        }
    }
}

} // verus!
