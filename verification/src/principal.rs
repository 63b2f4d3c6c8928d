//! The authenticated identity attached to a request after credential
//! verification. Immutable once constructed; carried for the request's
//! lifetime only.

use vstd::prelude::*;

use crate::identity::Identity;

verus! {

/// The authenticated identity of a request.
#[derive(Debug, Clone, PartialEq, Eq)]
pub struct Principal {
    pub id: i32,
    pub username: String,
    pub identity: Identity,
}

/// The mathematical image of a `Principal`.
#[verifier::ext_equal]
pub struct PrincipalView {
    pub id: i32,
    pub username: Seq<char>,
    pub identity: Identity,
}

impl View for Principal {
    type V = PrincipalView;

    open spec fn view(&self) -> PrincipalView {
        PrincipalView { id: self.id, username: self.username@, identity: self.identity }
    }
}

impl Principal {
    pub fn new(id: i32, username: String, identity: Identity) -> (r: Principal)
        ensures
            r@.id == id,
            r@.username == username@,
            r@.identity == identity,
    {
        Principal { id, username, identity }
    }
}

} // verus!
