use vstd::prelude::*;
use crate::identity::errors::Error;
use crate::identity::model::User;
use crate::identity::repository::users::UsersRepository;

verus! {

/// Looks users up through the users repository.
#[derive(Debug)]
pub struct GetUserService {
    repo: UsersRepository,
}

impl GetUserService {
    pub fn new(repo: UsersRepository) -> (s: Self)
        ensures
            s.repo() == repo,
    {
        GetUserService { repo }
    }

    pub closed spec fn repo(&self) -> UsersRepository {
        self.repo
    }

    /// The user with the given id, as the repository finds it.
    pub fn by_id(&self, id: u128) -> (r: Result<User, Error>)
        ensures
            r == Err::<User, Error>(Error::NotFound),
    {
        self.repo.find_by_id(id)
    }
}

} // verus!
