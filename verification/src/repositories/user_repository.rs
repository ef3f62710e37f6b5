//! The user repository over a password hasher: hashing goes to the hasher;
//! the lookups and the insert are the database's, made by the caller.
use crate::errors::RepositoryResult;
use crate::security::{
    argon2id_prefix, generated_salt, hash_spec, hash_view, max_password_len, verify_spec,
    PasswordHasherRepository,
};
use crate::text::has_prefix;
use vstd::prelude::*;
use vstd::utf8::*;

verus! {

/// Hashes the passwords of new users.
pub trait UserRepository {
    /// Hashes a password with a fresh random salt; the password checks
    /// against the hash.
    fn hash_password(&self, password: String) -> (res: RepositoryResult<String>)
        ensures
            exists|salt: Seq<char>| generated_salt(salt) && hash_view(res) == hash_spec(password@, salt),
            encode_utf8(password@).len() <= max_password_len() ==> res is Ok,
            res matches Ok(h) ==> verify_spec(h@, password@) == Ok::<bool, (Seq<char>, u16)>(true),
            res matches Ok(h) ==> has_prefix(h@, argon2id_prefix()),
    ;
}

/// The user repository over the hasher `H`.
pub struct UserRepositoryImpl<H: PasswordHasherRepository> {
    hasher_repo: H,
}

impl<H: PasswordHasherRepository> UserRepositoryImpl<H> {
    /// The hasher that passwords are hashed with.
    pub closed spec fn hasher(&self) -> H {
        self.hasher_repo
    }

    /// A repository that hashes with `hasher_repo`.
    pub fn new(hasher_repo: H) -> (res: Self)
        ensures
            res.hasher() == hasher_repo,
    {
        UserRepositoryImpl { hasher_repo }
    }
}

impl<H: PasswordHasherRepository> UserRepository for UserRepositoryImpl<H> {
    fn hash_password(&self, password: String) -> (res: RepositoryResult<String>) {
        self.hasher_repo.hash(password.as_str())
    }
}

} // verus!
