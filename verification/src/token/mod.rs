//! The tokens that the server issues.
use vstd::prelude::*;

pub mod repository;

verus! {

/// Something that a token store can keep: it knows its own identifier.
pub trait Token {
    /// The identifier of the token.
    spec fn token_id(&self) -> u128;

    /// The identifier of the token.
    fn id(&self) -> (id: u128)
        ensures
            id == self.token_id(),
    ;
}

/// How a token is to be presented.
#[derive(Debug, Clone, Copy, PartialEq, Eq, Structural)]
pub enum TokenType {
    /// Whoever bears the token may use it.
    Bearer,
}

impl TokenType {
    /// The name of the token type in a response.
    pub open spec fn spec_name(self) -> Seq<char> {
        match self {
            TokenType::Bearer => "bearer"@,
        }
    }

    /// The name of the token type in a response.
    pub fn name(&self) -> (name: &'static str)
        ensures
            name@ == self.spec_name(),
    {
        match self {
            TokenType::Bearer => "bearer",
        }
    }
}

/// An access token. It is known by the 128-bit number of a UUID.
#[derive(Debug, Clone, Copy, PartialEq, Eq, Structural)]
pub struct AccessToken {
    pub id: u128,
}

impl Token for AccessToken {
    open spec fn token_id(&self) -> u128 {
        self.id
    }

    fn id(&self) -> (id: u128) {
        self.id
    }
}

} // verus!
