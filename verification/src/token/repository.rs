//! Where issued tokens are kept.
use std::collections::HashMap;
use vstd::prelude::*;

use crate::token::Token;

verus! {

broadcast use vstd::std_specs::hash::group_hash_axioms;

/// A store of tokens, each under its identifier.
pub trait TokenRepository<T: Token + Clone> {
    /// Whether the store keeps its tokens in its own memory. What such a store answers is
    /// read from `tokens`. A store that asks a service outside the process leaves this at
    /// `false`, and nothing is known of its answers.
    open spec fn in_memory(&self) -> bool {
        false
    }

    /// The tokens that an in-memory store holds.
    open spec fn tokens(&self) -> Map<u128, T> {
        Map::empty()
    }

    /// A copy of the token kept under `id`.
    fn get_token(&self, id: u128) -> (found: Option<T>)
        ensures
            self.in_memory() ==> match found {
                Some(token) => self.tokens().dom().contains(id) && cloned(self.tokens()[id], token),
                None => !self.tokens().dom().contains(id),
            },
    ;

    /// Keeps a copy of `token` under its identifier, in place of what was kept there.
    fn save_token(&mut self, token: &T)
        ensures
            final(self).in_memory() == old(self).in_memory(),
            old(self).in_memory() ==> {
                &&& final(self).tokens().dom() == old(self).tokens().dom().insert(token.token_id())
                &&& cloned(*token, final(self).tokens()[token.token_id()])
                &&& forall|id: u128|
                    id != token.token_id() && old(self).tokens().dom().contains(id)
                        ==> final(self).tokens()[id] == old(self).tokens()[id]
            },
    ;
}

/// A store that keeps the tokens in a hash map.
pub struct InMemoryTokenRepository<T> {
    map: HashMap<u128, T>,
}

impl<T> View for InMemoryTokenRepository<T> {
    type V = Map<u128, T>;

    /// The tokens in the store, each under the identifier that it was saved with.
    closed spec fn view(&self) -> Map<u128, T> {
        self.map@
    }
}

impl<T> InMemoryTokenRepository<T> {
    /// A store that holds no token.
    pub fn new() -> (repository: Self)
        ensures
            repository@ == Map::<u128, T>::empty(),
    {
        Self { map: HashMap::new() }
    }
}

impl<T> Default for InMemoryTokenRepository<T> {
    /// A store that holds no token.
    fn default() -> (repository: Self)
        ensures
            repository@ == Map::<u128, T>::empty(),
    {
        Self::new()
    }
}

impl<T: Token + Clone> TokenRepository<T> for InMemoryTokenRepository<T> {
    open spec fn in_memory(&self) -> bool {
        true
    }

    open spec fn tokens(&self) -> Map<u128, T> {
        self@
    }

    fn get_token(&self, id: u128) -> (found: Option<T>) {
        match self.map.get(&id) {
            Some(token) => Some(token.clone()),
            None => None,
        }
    }

    fn save_token(&mut self, token: &T) {
        let copy = token.clone();
        self.map.insert(token.id(), copy);
    }
}

} // verus!
