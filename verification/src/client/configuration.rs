//! What the server knows of each client, and where it keeps it.
use vstd::hash_map::StringHashMap;
use vstd::prelude::*;
use vstd::string::*;

use crate::client::{ClientAction, ClientId, ClientType, GrantType};
use crate::scope::{has_scope, scope_names, scopes_among, Scope};
use crate::util::value_struct::ValueStruct;

verus! {

/// The policy of one client. The lists stand for sets: two configurations are equal when
/// they are of the same client and the same type and their lists hold the same items, in
/// whatever order.
#[derive(Debug)]
pub struct ClientConfiguration {
    pub client_id: ClientId,
    pub client_type: ClientType,
    pub redirect_uris: Vec<String>,
    pub allowed_scopes: Vec<Scope>,
    pub allowed_actions: Vec<ClientAction>,
    pub allowed_grant_types: Vec<GrantType>,
}

/// A configuration as contracts see it: each list is the set of what it holds.
pub struct ClientConfigurationView {
    pub client_id: Seq<char>,
    pub client_type: ClientType,
    pub redirect_uris: Set<Seq<char>>,
    pub allowed_scopes: Set<Seq<char>>,
    pub allowed_actions: Set<ClientAction>,
    pub allowed_grant_types: Set<GrantType>,
}

/// The strings of `items` as character sequences, in order.
pub open spec fn string_views(items: Seq<String>) -> Seq<Seq<char>> {
    Seq::new(items.len(), |i: int| items[i]@)
}

impl View for ClientConfiguration {
    type V = ClientConfigurationView;

    open spec fn view(&self) -> ClientConfigurationView {
        ClientConfigurationView {
            client_id: self.client_id@,
            client_type: self.client_type,
            redirect_uris: string_views(self.redirect_uris@).to_set(),
            allowed_scopes: scope_names(self.allowed_scopes@).to_set(),
            allowed_actions: self.allowed_actions@.to_set(),
            allowed_grant_types: self.allowed_grant_types@.to_set(),
        }
    }
}

fn clone_strings(items: &Vec<String>) -> (copy: Vec<String>)
    ensures
        string_views(copy@) == string_views(items@),
{
    let mut copy: Vec<String> = Vec::new();
    let mut i: usize = 0;
    while i < items.len()
        invariant
            i <= items@.len(),
            copy@.len() == i,
            forall|j: int| 0 <= j < i ==> copy@[j]@ == items@[j]@,
        decreases items@.len() - i,
    {
        copy.push(items[i].clone());
        i += 1;
    }
    assert(string_views(copy@) =~= string_views(items@));
    copy
}

fn clone_scopes(items: &Vec<Scope>) -> (copy: Vec<Scope>)
    ensures
        scope_names(copy@) == scope_names(items@),
{
    let mut copy: Vec<Scope> = Vec::new();
    let mut i: usize = 0;
    while i < items.len()
        invariant
            i <= items@.len(),
            copy@.len() == i,
            forall|j: int| 0 <= j < i ==> copy@[j]@ == items@[j]@,
        decreases items@.len() - i,
    {
        copy.push(items[i].clone());
        i += 1;
    }
    assert(scope_names(copy@) =~= scope_names(items@));
    copy
}

impl Clone for ClientConfiguration {
    fn clone(&self) -> (copy: Self)
        ensures
            copy@ == self@,
            copy.client_type == self.client_type,
    {
        ClientConfiguration {
            client_id: self.client_id.clone(),
            client_type: self.client_type,
            redirect_uris: clone_strings(&self.redirect_uris),
            allowed_scopes: clone_scopes(&self.allowed_scopes),
            allowed_actions: self.allowed_actions.clone(),
            allowed_grant_types: self.allowed_grant_types.clone(),
        }
    }
}

/// Whether every string of `some` is among `all`.
fn strings_among(some: &Vec<String>, all: &Vec<String>) -> (among: bool)
    ensures
        among == string_views(some@).to_set().subset_of(string_views(all@).to_set()),
{
    let mut i: usize = 0;
    while i < some.len()
        invariant
            i <= some@.len(),
            forall|j: int| 0 <= j < i ==> string_views(all@).contains(#[trigger] string_views(some@)[j]),
        decreases some@.len() - i,
    {
        let mut found = false;
        let mut k: usize = 0;
        while k < all.len() && !found
            invariant
                k <= all@.len(),
                i < some@.len(),
                found ==> string_views(all@).contains(string_views(some@)[i as int]),
                !found ==> forall|j: int| 0 <= j < k ==> string_views(all@)[j] != some@[i as int]@,
            decreases all@.len() - k + if found { 0int } else { 1int },
        {
            if all[k] == some[i] {
                assert(string_views(all@)[k as int] == string_views(some@)[i as int]);
                found = true;
            } else {
                k += 1;
            }
        }
        if !found {
            proof {
                let missing = string_views(some@)[i as int];
                assert(string_views(some@).to_set().contains(missing));
                assert(!string_views(all@).to_set().contains(missing));
            }
            return false;
        }
        i += 1;
    }
    true
}

/// Whether every action of `some` is among `all`.
fn actions_among(some: &Vec<ClientAction>, all: &ClientConfiguration) -> (among: bool)
    ensures
        among == some@.to_set().subset_of(all@.allowed_actions),
{
    let mut i: usize = 0;
    while i < some.len()
        invariant
            i <= some@.len(),
            forall|j: int| 0 <= j < i ==> all@.allowed_actions.contains(#[trigger] some@[j]),
        decreases some@.len() - i,
    {
        if !all.allows_action(&some[i]) {
            assert(some@.to_set().contains(some@[i as int]));
            return false;
        }
        i += 1;
    }
    true
}

/// Whether every grant type of `some` is among `all`.
fn grant_types_among(some: &Vec<GrantType>, all: &ClientConfiguration) -> (among: bool)
    ensures
        among == some@.to_set().subset_of(all@.allowed_grant_types),
{
    let mut i: usize = 0;
    while i < some.len()
        invariant
            i <= some@.len(),
            forall|j: int| 0 <= j < i ==> all@.allowed_grant_types.contains(#[trigger] some@[j]),
        decreases some@.len() - i,
    {
        if !all.allows_grant_type(&some[i]) {
            assert(some@.to_set().contains(some@[i as int]));
            return false;
        }
        i += 1;
    }
    true
}

impl PartialEq for ClientConfiguration {
    fn eq(&self, other: &Self) -> (same: bool) {
        let same = *self.client_id.value() == *other.client_id.value() && self.client_type
            == other.client_type && strings_among(&self.redirect_uris, &other.redirect_uris)
            && strings_among(&other.redirect_uris, &self.redirect_uris) && scopes_among(
            &self.allowed_scopes,
            &other.allowed_scopes,
        ) && scopes_among(&other.allowed_scopes, &self.allowed_scopes) && actions_among(
            &self.allowed_actions,
            other,
        ) && actions_among(&other.allowed_actions, self) && grant_types_among(
            &self.allowed_grant_types,
            other,
        ) && grant_types_among(&other.allowed_grant_types, self);
        proof {
            if same {
                assert(self@.redirect_uris =~= other@.redirect_uris);
                assert(self@.allowed_scopes =~= other@.allowed_scopes);
                assert(self@.allowed_actions =~= other@.allowed_actions);
                assert(self@.allowed_grant_types =~= other@.allowed_grant_types);
            }
        }
        same
    }
}

impl Eq for ClientConfiguration {

}

impl vstd::std_specs::cmp::PartialEqSpecImpl for ClientConfiguration {
    open spec fn obeys_eq_spec() -> bool {
        true
    }

    open spec fn eq_spec(&self, other: &Self) -> bool {
        self@ == other@
    }
}

impl ClientConfiguration {
    /// Whether the client may be given `scope`.
    pub fn allows_scope(&self, scope: &Scope) -> (allowed: bool)
        ensures
            allowed == self@.allowed_scopes.contains(scope@),
    {
        has_scope(&self.allowed_scopes, &scope.name)
    }

    /// Whether the client may perform `action`.
    pub fn allows_action(&self, action: &ClientAction) -> (allowed: bool)
        ensures
            allowed == self@.allowed_actions.contains(*action),
    {
        let mut i: usize = 0;
        while i < self.allowed_actions.len()
            invariant
                i <= self.allowed_actions@.len(),
                forall|j: int| 0 <= j < i ==> self.allowed_actions@[j] != *action,
            decreases self.allowed_actions@.len() - i,
        {
            if self.allowed_actions[i] == *action {
                return true;
            }
            i += 1;
        }
        false
    }

    /// Whether the client may use `grant_type`.
    pub fn allows_grant_type(&self, grant_type: &GrantType) -> (allowed: bool)
        ensures
            allowed == self@.allowed_grant_types.contains(*grant_type),
    {
        let mut i: usize = 0;
        while i < self.allowed_grant_types.len()
            invariant
                i <= self.allowed_grant_types@.len(),
                forall|j: int| 0 <= j < i ==> self.allowed_grant_types@[j] != *grant_type,
            decreases self.allowed_grant_types@.len() - i,
        {
            if self.allowed_grant_types[i] == *grant_type {
                return true;
            }
            i += 1;
        }
        false
    }
}

/// What a lookup found, as contracts see it.
pub open spec fn found_view(found: Option<ClientConfiguration>) -> Option<ClientConfigurationView> {
    match found {
        Some(configuration) => Some(configuration@),
        None => None,
    }
}

/// A store of client configurations.
pub trait ClientConfigurationRepository {
    /// Whether the store keeps its configurations in its own memory. Such a store never
    /// fails, and what it answers is `configuration_of`. A store that asks a service
    /// outside the process leaves this at `false`, and nothing is known of its answers.
    open spec fn in_memory(&self) -> bool {
        false
    }

    /// The configuration that an in-memory store holds for a client identifier.
    open spec fn configuration_of(&self, client_id: Seq<char>) -> Option<ClientConfigurationView> {
        None
    }

    /// The configuration of the client of the given identifier, if the store holds one.
    /// An error says that the store could not be asked, never that the client is unknown.
    fn find_by_id(&self, client_id: &ClientId) -> (found: Result<
        Option<ClientConfiguration>,
        std::io::Error,
    >)
        ensures
            self.in_memory() ==> (found matches Ok(configuration) && found_view(configuration)
                == self.configuration_of(client_id@)),
    ;

    /// The configuration of the client whose identifier `client_id` spells, if the store
    /// holds one.
    fn find_by_client_id(&self, client_id: &str) -> (found: Result<
        Option<ClientConfiguration>,
        std::io::Error,
    >)
        ensures
            self.in_memory() ==> (found matches Ok(configuration) && found_view(configuration)
                == self.configuration_of(client_id@)),
    ;
}

/// A store that keeps the configurations in a hash map, each under the identifier of its
/// client.
pub struct InMemoryClientConfigurationRepository {
    map: StringHashMap<ClientConfiguration>,
}

/// The confidential client that a new store starts with.
pub open spec fn seeded_confidential_client() -> ClientConfigurationView {
    ClientConfigurationView {
        client_id: "aardvark"@,
        client_type: ClientType::Confidential,
        redirect_uris: Set::empty(),
        allowed_scopes: set!["basic"@],
        allowed_actions: set![ClientAction::Introspect],
        allowed_grant_types: set![GrantType::Password],
    }
}

/// The public client that a new store starts with.
pub open spec fn seeded_public_client() -> ClientConfigurationView {
    ClientConfigurationView {
        client_id: "badger"@,
        client_type: ClientType::Public,
        redirect_uris: Set::empty(),
        allowed_scopes: set!["basic"@],
        allowed_actions: Set::empty(),
        allowed_grant_types: Set::empty(),
    }
}

impl View for InMemoryClientConfigurationRepository {
    type V = Map<Seq<char>, ClientConfigurationView>;

    /// The configurations in the store, each under the identifier of its client.
    closed spec fn view(&self) -> Map<Seq<char>, ClientConfigurationView> {
        Map::new(
            |client_id: Seq<char>| self.map@.dom().contains(client_id),
            |client_id: Seq<char>| self.map@[client_id]@,
        )
    }
}

impl InMemoryClientConfigurationRepository {
    #[verifier::type_invariant]
    spec fn keyed_by_client_id(self) -> bool {
        forall|client_id: Seq<char>| #[trigger]
            self.map@.dom().contains(client_id) ==> self.map@[client_id].client_id@ == client_id
    }

    /// A store that holds one confidential and one public client.
    pub fn new() -> (repository: Self)
        ensures
            repository@ == map![
                "aardvark"@ => seeded_confidential_client(),
                "badger"@ => seeded_public_client(),
            ],
    {
        let mut map: StringHashMap<ClientConfiguration> = StringHashMap::new();
        let mut scopes: Vec<Scope> = Vec::new();
        scopes.push(Scope::from("basic"));
        let mut actions: Vec<ClientAction> = Vec::new();
        actions.push(ClientAction::Introspect);
        let mut grant_types: Vec<GrantType> = Vec::new();
        grant_types.push(GrantType::Password);
        let (confidential_id, confidential) = Self::create_entry(
            ClientConfiguration {
                client_id: ClientId::from("aardvark".to_owned()),
                client_type: ClientType::Confidential,
                redirect_uris: Vec::new(),
                allowed_scopes: scopes,
                allowed_actions: actions,
                allowed_grant_types: grant_types,
            },
        );
        let mut scopes: Vec<Scope> = Vec::new();
        scopes.push(Scope::from("basic"));
        let (public_id, public) = Self::create_entry(
            ClientConfiguration {
                client_id: ClientId::from("badger".to_owned()),
                client_type: ClientType::Public,
                redirect_uris: Vec::new(),
                allowed_scopes: scopes,
                allowed_actions: Vec::new(),
                allowed_grant_types: Vec::new(),
            },
        );
        proof {
            assert(confidential@.redirect_uris =~= Set::empty());
            assert(confidential@.allowed_scopes =~= set!["basic"@]) by {
                assert(scope_names(confidential.allowed_scopes@)[0] == "basic"@);
            }
            assert(confidential@.allowed_actions =~= set![ClientAction::Introspect]) by {
                assert(confidential.allowed_actions@[0] == ClientAction::Introspect);
            }
            assert(confidential@.allowed_grant_types =~= set![GrantType::Password]) by {
                assert(confidential.allowed_grant_types@[0] == GrantType::Password);
            }
            assert(public@.redirect_uris =~= Set::empty());
            assert(public@.allowed_scopes =~= set!["basic"@]) by {
                assert(scope_names(public.allowed_scopes@)[0] == "basic"@);
            }
            assert(public@.allowed_actions =~= Set::empty());
            assert(public@.allowed_grant_types =~= Set::empty());
        }
        map.insert(confidential_id.into_value(), confidential);
        map.insert(public_id.into_value(), public);
        let repository = InMemoryClientConfigurationRepository { map };
        assert(repository@ =~= map![
            "aardvark"@ => seeded_confidential_client(),
            "badger"@ => seeded_public_client(),
        ]);
        repository
    }

    /// The entry under which a configuration is kept: the identifier of its client, and
    /// the configuration itself.
    pub fn create_entry(configuration: ClientConfiguration) -> (entry: (
        ClientId,
        ClientConfiguration,
    ))
        ensures
            entry.0@ == configuration.client_id@,
            entry.1 == configuration,
    {
        (configuration.client_id.clone(), configuration)
    }

    /// Puts a configuration into the store, in place of the one that the store held for
    /// the same client, if it held one.
    pub fn insert(&mut self, configuration: ClientConfiguration)
        ensures
            final(self)@ == old(self)@.insert(configuration@.client_id, configuration@),
    {
        proof {
            use_type_invariant(&*self);
        }
        let (client_id, configuration) = Self::create_entry(configuration);
        let mut map: StringHashMap<ClientConfiguration> = StringHashMap::new();
        std::mem::swap(&mut map, &mut self.map);
        map.insert(client_id.into_value(), configuration);
        self.map = map;
        assert(self@ =~= old(self)@.insert(configuration@.client_id, configuration@));
    }
}

impl Default for InMemoryClientConfigurationRepository {
    /// A store that holds no client.
    fn default() -> (repository: Self)
        ensures
            repository@ == Map::<Seq<char>, ClientConfigurationView>::empty(),
    {
        let repository = InMemoryClientConfigurationRepository { map: StringHashMap::new() };
        assert(repository@ =~= Map::<Seq<char>, ClientConfigurationView>::empty());
        repository
    }
}

impl ClientConfigurationRepository for InMemoryClientConfigurationRepository {
    open spec fn in_memory(&self) -> bool {
        true
    }

    open spec fn configuration_of(&self, client_id: Seq<char>) -> Option<ClientConfigurationView> {
        if self@.dom().contains(client_id) {
            Some(self@[client_id])
        } else {
            None
        }
    }

    fn find_by_id(&self, client_id: &ClientId) -> (found: Result<
        Option<ClientConfiguration>,
        std::io::Error,
    >)
    {
        self.find_by_client_id(client_id.value().as_str())
    }

    fn find_by_client_id(&self, client_id: &str) -> (found: Result<
        Option<ClientConfiguration>,
        std::io::Error,
    >)
    {
        match self.map.get(client_id) {
            Some(configuration) => Ok(Some(configuration.clone())),
            None => Ok(None),
        }
    }
}

} // verus!
