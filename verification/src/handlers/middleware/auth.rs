//! Who a request comes from: the user that its token names.
use vstd::prelude::*;
use crate::utils::identity::Identity;
use crate::utils::jwt::{get_claims_from_token, Claims, Error};

verus! {

/// The user that a request has been found to come from.
#[derive(Clone, Copy, Debug, PartialEq, Eq, Structural)]
pub struct UserID(pub Identity);

impl UserID {
    /// The user with the given identity.
    pub fn new(id: Identity) -> (user: Self)
        ensures
            user == UserID(id),
    {
        UserID(id)
    }

    /// The identity of the user.
    pub fn id(&self) -> (id: Identity)
        ensures
            id == self.0,
    {
        self.0
    }
}

/// The user that the claims of a token name: the one whose identity is
/// their subject; nobody where the token was refused or its subject is no
/// identity.
pub open spec fn subject_of(claims: Result<Claims, Error>) -> Option<UserID> {
    match claims {
        Ok(c) => match Identity::parsed(c.sub@) {
            Some(id) => Some(UserID(id)),
            None => None,
        },
        Err(_) => None,
    }
}

/// The user that the claims of a token name.
pub fn user_of_claims(claims: &Result<Claims, Error>) -> (user: Option<UserID>)
    ensures
        user == subject_of(*claims),
{
    match claims {
        Ok(c) => match Identity::parse_str(c.sub.as_str()) {
            Some(id) => Some(UserID::new(id)),
            None => None,
        },
        Err(_) => None,
    }
}

/// The user that a request comes from, given its authorization header: a
/// request without one, or with a token that is refused or names nobody,
/// comes from nobody and is to be answered as unauthorized.
pub fn authenticate(authorization: Option<&str>) -> (user: Option<UserID>)
    ensures
        authorization is None ==> user is None,
        authorization is Some ==> exists|claims: Result<Claims, Error>|
            user == #[trigger] subject_of(claims),
{
    match authorization {
        Some(token) => user_of_claims(&get_claims_from_token(token.to_owned())),
        None => None,
    }
}

} // verus!
