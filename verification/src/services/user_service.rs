//! Registering users: the answer to a registration once the repository
//! created the user.
use crate::domain::{CreateUser, CreatedUser};
use crate::errors::RepositoryResult;
use vstd::prelude::*;

verus! {

/// What a registration answers, taken by views: the new user's id, name
/// and email, or the error.
pub open spec fn created_view(r: RepositoryResult<CreatedUser>) -> Result<
    (u128, Seq<char>, Option<String>),
    (Seq<char>, u16),
> {
    match r {
        Ok(c) => Ok((c.user_id, c.username@, c.email)),
        Err(e) => Err(e@),
    }
}

/// Registers users.
pub trait UserService {
    /// The answer to registering `user`, given what creating it answered:
    /// the new id with the requested name and email, or the error.
    fn create(&self, user: CreateUser, created: RepositoryResult<u128>) -> (res: RepositoryResult<CreatedUser>)
        ensures
            match created {
                Ok(id) => created_view(res) == Ok::<
                    (u128, Seq<char>, Option<String>),
                    (Seq<char>, u16),
                >((id, user.username@, user.email)),
                Err(e) => created_view(res) == Err::<
                    (u128, Seq<char>, Option<String>),
                    (Seq<char>, u16),
                >(e@),
            },
    ;
}

/// The registration service.
pub struct UserServiceImpl;

impl UserServiceImpl {
    pub fn new() -> (res: Self) {
        UserServiceImpl
    }
}

impl UserService for UserServiceImpl {
    fn create(&self, user: CreateUser, created: RepositoryResult<u128>) -> (res: RepositoryResult<CreatedUser>) {
        let id = match created {
            Ok(id) => id,
            Err(e) => return Err(e),
        };
        Ok(CreatedUser { user_id: id, username: user.username, email: user.email })
    }
}

} // verus!
