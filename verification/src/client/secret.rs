//! The secrets of confidential clients, kept as password hashes.
use argon2::password_hash::{PasswordHasher, SaltString};
use argon2::Argon2;
use vstd::prelude::*;
use vstd::string::*;

use crate::client::ClientId;
use crate::text::str_equals;
use crate::util::identifier::{is_random_uuid, new_v4};
use crate::util::value_struct::ValueStruct;

verus! {

/// One secret of a client. A client may have several on file while it changes from one to
/// the next.
#[derive(Debug, PartialEq, Eq)]
pub struct ClientSecret {
    pub id: u128,
    pub client_id: ClientId,
    pub hashed_secret: String,
}

/// A secret as contracts see it.
pub struct ClientSecretView {
    pub id: u128,
    pub client_id: Seq<char>,
    pub hashed_secret: Seq<char>,
}

impl View for ClientSecret {
    type V = ClientSecretView;

    open spec fn view(&self) -> ClientSecretView {
        ClientSecretView {
            id: self.id,
            client_id: self.client_id@,
            hashed_secret: self.hashed_secret@,
        }
    }
}

impl Clone for ClientSecret {
    fn clone(&self) -> (copy: Self)
        ensures
            copy@ == self@,
    {
        ClientSecret {
            id: self.id,
            client_id: self.client_id.clone(),
            hashed_secret: self.hashed_secret.clone(),
        }
    }
}

/// The secrets of `secrets` as contracts see them, in order.
pub open spec fn secret_views(secrets: Seq<ClientSecret>) -> Seq<ClientSecretView> {
    Seq::new(secrets.len(), |i: int| secrets[i]@)
}

/// What a lookup of one secret found, as contracts see it.
pub open spec fn found_secret_view(found: Option<ClientSecret>) -> Option<ClientSecretView> {
    match found {
        Some(secret) => Some(secret@),
        None => None,
    }
}

/// Belonging to the client `client_id`, as a test on secrets.
pub open spec fn owned_by(client_id: Seq<char>) -> spec_fn(ClientSecretView) -> bool {
    |secret: ClientSecretView| secret.client_id == client_id
}

/// The secrets of `secrets` that belong to the client `client_id`, in order.
pub open spec fn secrets_of(secrets: Seq<ClientSecretView>, client_id: Seq<char>) -> Seq<
    ClientSecretView,
> {
    secrets.filter(owned_by(client_id))
}

/// The secret of `secrets` that bears the identifier `id`: the first, should there be more.
pub open spec fn secret_with_id(secrets: Seq<ClientSecretView>, id: u128) -> Option<
    ClientSecretView,
> {
    match first_with_id(secrets, id) {
        Some(i) => Some(secrets[i]),
        None => None,
    }
}

/// The secrets on file for a client all name that client.
pub proof fn lemma_secrets_of_name_the_client(secrets: Seq<ClientSecretView>, client_id: Seq<char>)
    ensures
        forall|i: int|
            0 <= i < secrets_of(secrets, client_id).len() ==> (#[trigger] secrets_of(
                secrets,
                client_id,
            )[i]).client_id == client_id,
{
    let kept = secrets.filter(owned_by(client_id));
    assert forall|i: int| 0 <= i < kept.len() implies (#[trigger] kept[i]).client_id
        == client_id by {
        secrets.lemma_filter_pred(owned_by(client_id), i);
    }
}

/// A store of client secrets.
pub trait ClientSecretRepository {
    /// Whether the store keeps its secrets in its own memory. Such a store never fails,
    /// and what it answers is read from `secrets`. A store that asks a service outside the
    /// process leaves this at `false`, and nothing is known of its answers.
    open spec fn in_memory(&self) -> bool {
        false
    }

    /// The secrets that an in-memory store holds.
    open spec fn secrets(&self) -> Seq<ClientSecretView> {
        Seq::empty()
    }

    /// The secret kept under the identifier `id`, if the store holds one.
    fn find_by_id(&self, id: u128) -> (found: Result<Option<ClientSecret>, std::io::Error>)
        ensures
            self.in_memory() ==> (found matches Ok(secret) && found_secret_view(secret)
                == secret_with_id(self.secrets(), id)),
    ;

    /// All the secrets on file for the client of the given identifier.
    fn find_all_by_client(&self, client_id: &ClientId) -> (found: Result<
        Vec<ClientSecret>,
        std::io::Error,
    >)
        ensures
            self.in_memory() ==> (found matches Ok(secrets) && secret_views(secrets@)
                == secrets_of(self.secrets(), client_id@)),
    ;

    /// All the secrets on file for the client whose identifier `client_id` spells.
    fn find_all_by_client_id(&self, client_id: &str) -> (found: Result<
        Vec<ClientSecret>,
        std::io::Error,
    >)
        ensures
            self.in_memory() ==> (found matches Ok(secrets) && secret_views(secrets@)
                == secrets_of(self.secrets(), client_id@)),
    ;
}

/// The password hash that Argon2 computes of `secret` with the salt `salt` and its default
/// parameters, written as a PHC string; `None` where it computes none.
pub uninterp spec fn argon2_hash(secret: Seq<u8>, salt: Seq<u8>) -> Option<Seq<char>>;

/// Whether the PHC string `hashed_secret` is an Argon2 password hash that `secret`
/// verifies against.
pub uninterp spec fn argon2_verifies(hashed_secret: Seq<char>, secret: Seq<u8>) -> bool;

/// The number of bytes of salt that a client secret is hashed with.
pub const SALT_LENGTH: usize = 16;

/// `Argon2::default().hash_password` of the crate `argon2`, with the salt handed over by
/// `SaltString::encode_b64` and the hash written out as a PHC string.
///
/// The hash depends on the secret and the salt alone; the contract gives it the name
/// `argon2_hash`. It also claims that the secret verifies against its own hash. That is
/// the round trip which the crate's documentation shows for password hashing: the string
/// of a hash is parsed again, and the password that was hashed verifies against it. The
/// salt has the length that the crate recommends, which its encoding accepts.
#[verifier::external_body]
fn hash_secret(secret: &[u8], salt: &[u8]) -> (hashed: Option<String>)
    requires
        salt@.len() == SALT_LENGTH,
    ensures
        match hashed {
            Some(text) => argon2_hash(secret@, salt@) == Some(text@) && argon2_verifies(
                text@,
                secret@,
            ),
            None => argon2_hash(secret@, salt@) is None,
        },
{
    let salt = match SaltString::encode_b64(salt) {
        Ok(salt) => salt,
        Err(_) => return None,
    };
    match Argon2::default().hash_password(secret, &salt) {
        Ok(hash) => Some(hash.to_string()),
        Err(_) => None,
    }
}

/// The salt of the secrets that the store itself hashes: zeros.
pub open spec fn zero_salt() -> Seq<u8> {
    Seq::new(SALT_LENGTH as nat, |i: int| 0u8)
}

/// A store that keeps the secrets in memory, each under its own identifier.
pub struct InMemoryClientSecretRepository {
    secrets: Vec<ClientSecret>,
}

impl View for InMemoryClientSecretRepository {
    type V = Seq<ClientSecretView>;

    /// The secrets in the store, in the order in which they came.
    closed spec fn view(&self) -> Seq<ClientSecretView> {
        secret_views(self.secrets@)
    }
}

impl InMemoryClientSecretRepository {
    #[verifier::type_invariant]
    spec fn distinct_identifiers(self) -> bool {
        forall|i: int, j: int|
            0 <= i < j < self.secrets@.len() ==> (#[trigger] self.secrets@[i]).id != (
            #[trigger] self.secrets@[j]).id
    }

    /// A store that holds one secret of the seeded confidential client: the hash of
    /// `badger`, for the client `aardvark`. Where the secret could not be hashed, the
    /// store is empty.
    pub fn new() -> (repository: Self)
        ensures
            match argon2_hash("badger".spec_bytes(), zero_salt()) {
                Some(hashed) => {
                    &&& repository@.len() == 1
                    &&& repository@[0].client_id == "aardvark"@
                    &&& repository@[0].hashed_secret == hashed
                    &&& argon2_verifies(hashed, "badger".spec_bytes())
                    &&& is_random_uuid(repository@[0].id)
                },
                None => repository@.len() == 0,
            },
    {
        let mut secrets: Vec<ClientSecret> = Vec::new();
        match Self::create_hashed_entry("aardvark", "badger".as_bytes()) {
            Some((_, secret)) => {
                secrets.push(secret);
            },
            None => {},
        }
        InMemoryClientSecretRepository { secrets }
    }

    /// A new secret for a client: the hash of `client_secret` under a fresh identifier.
    /// `None` where the secret could not be hashed.
    pub fn create_hashed_entry(client_id: &str, client_secret: &[u8]) -> (entry: Option<
        (u128, ClientSecret),
    >)
        ensures
            match argon2_hash(client_secret@, zero_salt()) {
                Some(hashed) => {
                    &&& entry matches Some((id, secret))
                    &&& secret.id == id
                    &&& is_random_uuid(id)
                    &&& secret@.client_id == client_id@
                    &&& secret@.hashed_secret == hashed
                    &&& argon2_verifies(hashed, client_secret@)
                },
                None => entry is None,
            },
    {
        let mut salt: Vec<u8> = Vec::new();
        let mut i: usize = 0;
        while i < SALT_LENGTH
            invariant
                i <= SALT_LENGTH,
                salt@.len() == i,
                forall|j: int| 0 <= j < i ==> salt@[j] == 0u8,
            decreases SALT_LENGTH - i,
        {
            salt.push(0u8);
            i += 1;
        }
        assert(salt@ =~= zero_salt());
        match hash_secret(client_secret, salt.as_slice()) {
            None => None,
            Some(hashed) => {
                let client_secret_id = new_v4();
                Some(
                    (
                        client_secret_id,
                        ClientSecret {
                            id: client_secret_id,
                            client_id: ClientId::from(client_id.to_owned()),
                            hashed_secret: hashed,
                        },
                    ),
                )
            },
        }
    }

    /// Where the secret of the given identifier stands in the store.
    fn position(&self, id: u128) -> (at: Option<usize>)
        ensures
            match at {
                Some(i) => i < self.secrets@.len() && self.secrets@[i as int].id == id,
                None => forall|i: int| 0 <= i < self.secrets@.len() ==> self.secrets@[i].id != id,
            },
    {
        let mut i: usize = 0;
        while i < self.secrets.len()
            invariant
                i <= self.secrets@.len(),
                forall|j: int| 0 <= j < i ==> self.secrets@[j].id != id,
            decreases self.secrets@.len() - i,
        {
            if self.secrets[i].id == id {
                return Some(i);
            }
            i += 1;
        }
        None
    }

    /// Puts a secret on file. A secret that bears the identifier of one already on file
    /// takes its place; any other comes last.
    pub fn insert(&mut self, secret: ClientSecret)
        ensures
            match first_with_id(old(self)@, secret.id) {
                Some(i) => final(self)@ == old(self)@.update(i, secret@),
                None => final(self)@ == old(self)@.push(secret@),
            },
    {
        proof {
            use_type_invariant(&*self);
        }
        let at = self.position(secret.id);
        let mut secrets: Vec<ClientSecret> = Vec::new();
        std::mem::swap(&mut secrets, &mut self.secrets);
        proof {
            lemma_first_with_id(secret_views(secrets@), secret.id);
        }
        match at {
            Some(i) => {
                proof {
                    assert(first_with_id(secret_views(secrets@), secret.id) == Some(i as int)) by {
                        let found = first_with_id(secret_views(secrets@), secret.id);
                        assert(secret_views(secrets@)[i as int].id == secret.id);
                        assert(found is Some);
                        if found->0 != i {
                            assert(secrets@[found->0].id == secrets@[i as int].id);
                        }
                    }
                }
                let ghost before = secrets@;
                secrets.set(i, secret);
                assert(secret_views(secrets@) =~= secret_views(before).update(i as int, secret@));
            },
            None => {
                let ghost before = secrets@;
                assert(first_with_id(secret_views(secrets@), secret.id) is None) by {
                    let found = first_with_id(secret_views(secrets@), secret.id);
                    if found is Some {
                        assert(secrets@[found->0].id == secret.id);
                    }
                }
                secrets.push(secret);
                assert(secret_views(secrets@) =~= secret_views(before).push(secret@));
            },
        }
        self.secrets = secrets;
    }
}

/// The place of the first secret of `secrets` that bears the identifier `id`.
pub open spec fn first_with_id(secrets: Seq<ClientSecretView>, id: u128) -> Option<int> {
    if exists|i: int| 0 <= i < secrets.len() && secrets[i].id == id {
        Some(choose|i: int| 0 <= i < secrets.len() && secrets[i].id == id && forall|j: int| 0 <= j < i ==> secrets[j].id != id)
    } else {
        None
    }
}

/// Where a secret of `secrets` bears the identifier `id`, the first that does so has a place.
pub proof fn lemma_first_with_id(secrets: Seq<ClientSecretView>, id: u128)
    ensures
        match first_with_id(secrets, id) {
            Some(i) => {
                &&& 0 <= i < secrets.len()
                &&& secrets[i].id == id
                &&& forall|j: int| 0 <= j < i ==> secrets[j].id != id
            },
            None => forall|i: int| 0 <= i < secrets.len() ==> secrets[i].id != id,
        },
{
    if exists|i: int| 0 <= i < secrets.len() && secrets[i].id == id {
        let some = choose|i: int| 0 <= i < secrets.len() && secrets[i].id == id;
        lemma_least_with_id(secrets, id, some);
    }
}

proof fn lemma_least_with_id(secrets: Seq<ClientSecretView>, id: u128, bound: int)
    requires
        0 <= bound < secrets.len(),
        secrets[bound].id == id,
    ensures
        exists|i: int| 0 <= i < secrets.len() && secrets[i].id == id && forall|j: int| 0 <= j < i ==> secrets[j].id != id,
    decreases bound,
{
    if exists|j: int| 0 <= j < bound && secrets[j].id == id {
        let earlier = choose|j: int| 0 <= j < bound && secrets[j].id == id;
        lemma_least_with_id(secrets, id, earlier);
    } else {
        assert(forall|j: int| 0 <= j < bound ==> secrets[j].id != id);
    }
}

impl Default for InMemoryClientSecretRepository {
    /// A store that holds no secret.
    fn default() -> (repository: Self)
        ensures
            repository@ == Seq::<ClientSecretView>::empty(),
    {
        let repository = InMemoryClientSecretRepository { secrets: Vec::new() };
        assert(repository@ =~= Seq::<ClientSecretView>::empty());
        repository
    }
}

impl ClientSecretRepository for InMemoryClientSecretRepository {
    open spec fn in_memory(&self) -> bool {
        true
    }

    open spec fn secrets(&self) -> Seq<ClientSecretView> {
        self@
    }

    fn find_by_id(&self, id: u128) -> (found: Result<Option<ClientSecret>, std::io::Error>) {
        proof {
            use_type_invariant(self);
            lemma_first_with_id(self@, id);
        }
        match self.position(id) {
            Some(i) => {
                proof {
                    let first = first_with_id(self@, id);
                    assert(self@[i as int].id == id);
                    if first->0 != i {
                        assert(self.secrets@[first->0].id == self.secrets@[i as int].id);
                    }
                }
                Ok(Some(self.secrets[i].clone()))
            },
            None => {
                proof {
                    let first = first_with_id(self@, id);
                    if first is Some {
                        assert(self.secrets@[first->0].id == id);
                    }
                }
                Ok(None)
            },
        }
    }

    fn find_all_by_client(&self, client_id: &ClientId) -> (found: Result<
        Vec<ClientSecret>,
        std::io::Error,
    >) {
        self.find_all_by_client_id(client_id.value().as_str())
    }

    fn find_all_by_client_id(&self, client_id: &str) -> (found: Result<
        Vec<ClientSecret>,
        std::io::Error,
    >) {
        let mut found: Vec<ClientSecret> = Vec::new();
        let mut i: usize = 0;
        assert(self@.take(0) =~= Seq::<ClientSecretView>::empty());
        proof {
            Seq::<ClientSecretView>::empty().lemma_filter_len(owned_by(client_id@));
        }
        while i < self.secrets.len()
            invariant
                i <= self.secrets@.len(),
                secret_views(found@) =~= self@.take(i as int).filter(owned_by(client_id@)),
            decreases self.secrets@.len() - i,
        {
            let secret = &self.secrets[i];
            proof {
                assert(self@.take(i as int + 1) =~= self@.take(i as int).push(secret@));
                self@.take(i as int).lemma_filter_push(secret@, owned_by(client_id@));
            }
            let ghost before = found@;
            if str_equals(secret.client_id.value().as_str(), client_id) {
                found.push(secret.clone());
                assert(secret_views(found@) =~= secret_views(before).push(secret@));
            }
            i += 1;
        }
        assert(self@.take(self.secrets@.len() as int) =~= self@);
        Ok(found)
    }
}

} // verus!
