//! The identity a request was authenticated as.
use vstd::prelude::*;

use crate::models::{Identity, Token};

verus! {

/// A user together with the token the request presented.
pub struct Authentication {
    identity: Identity,
    token: Token,
}

impl Authentication {
    /// The authenticated user.
    pub closed spec fn identity_spec(&self) -> Identity {
        self.identity
    }

    /// The token the request presented.
    pub closed spec fn token_spec(&self) -> Token {
        self.token
    }

    /// Pairs a token with the user that owns it.
    pub fn new(identity: Identity, token: Token) -> (r: Authentication)
        ensures
            r.identity_spec() == identity,
            r.token_spec() == token,
    {
        Authentication { identity, token }
    }

    /// The authenticated user.
    pub fn identity(&self) -> (r: &Identity)
        ensures
            *r == self.identity_spec(),
    {
        &self.identity
    }

    /// The token the request presented.
    pub fn token(&self) -> (r: &Token)
        ensures
            *r == self.token_spec(),
    {
        &self.token
    }
}

} // verus!
