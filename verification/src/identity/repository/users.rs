use vstd::prelude::*;
use crate::identity::errors::Error;
use crate::identity::model::User;

verus! {

/// The store of users. No backing store is connected yet, so every lookup
/// finds nothing.
#[derive(Debug)]
pub struct UsersRepository;

impl UsersRepository {
    pub fn new() -> (r: Self)
        ensures
            r == UsersRepository,
    {
        UsersRepository
    }

    /// The user with the given id: always `NotFound` for now.
    pub fn find_by_id(&self, id: u128) -> (r: Result<User, Error>)
        ensures
            r == Err::<User, Error>(Error::NotFound),
    {
        Err(Error::NotFound)
    }

    /// The user with the given email address: always `NotFound` for now.
    pub fn find_by_email(&self, email: &str) -> (r: Result<User, Error>)
        ensures
            r == Err::<User, Error>(Error::NotFound),
    {
        Err(Error::NotFound)
    }
}

impl Default for UsersRepository {
    fn default() -> (r: Self)
        ensures
            r == UsersRepository,
    {
        UsersRepository
    }
}

} // verus!
