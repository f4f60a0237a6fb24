use vstd::prelude::*;
use crate::identity::errors::Error;
use crate::identity::model::Session;
use crate::identity::repository::sessions::SessionsRepository;

verus! {

/// Looks sessions up through the sessions repository.
#[derive(Debug)]
pub struct GetSessionService {
    repo: SessionsRepository,
}

impl GetSessionService {
    pub fn new(repo: SessionsRepository) -> (s: Self)
        ensures
            s.repo() == repo,
    {
        GetSessionService { repo }
    }

    pub closed spec fn repo(&self) -> SessionsRepository {
        self.repo
    }

    /// The session with the given token, as the repository finds it.
    pub fn by_token(&self, token: &str) -> (r: Result<Session, Error>)
        ensures
            r == Err::<Session, Error>(Error::NotFound),
    {
        self.repo.find_by_token(token)
    }
}

} // verus!
