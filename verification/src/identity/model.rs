use vstd::prelude::*;

verus! {

/// A registered user.
#[derive(Debug)]
pub struct User {
    pub id: u128,
    pub email: String,
}

/// A login session of a user, found by its token.
#[derive(Debug)]
pub struct Session {
    pub id: u128,
    pub user_id: u128,
    pub token: String,
}

} // verus!
