use vstd::prelude::*;
use crate::identity::errors::Error;
use crate::identity::model::Session;

verus! {

/// The store of sessions. No backing store is connected yet, so every
/// lookup finds nothing.
#[derive(Debug)]
pub struct SessionsRepository;

impl SessionsRepository {
    pub fn new() -> (r: Self)
        ensures
            r == SessionsRepository,
    {
        SessionsRepository
    }

    /// The session with the given token: always `NotFound` for now.
    pub fn find_by_token(&self, token: &str) -> (r: Result<Session, Error>)
        ensures
            r == Err::<Session, Error>(Error::NotFound),
    {
        Err(Error::NotFound)
    }

    /// The sessions of a user: always `NotFound` for now.
    pub fn find_by_user_id(&self, user_id: u128) -> (r: Result<Vec<Session>, Error>)
        ensures
            r == Err::<Vec<Session>, Error>(Error::NotFound),
    {
        Err(Error::NotFound)
    }
}

impl Default for SessionsRepository {
    fn default() -> (r: Self)
        ensures
            r == SessionsRepository,
    {
        SessionsRepository
    }
}

} // verus!
