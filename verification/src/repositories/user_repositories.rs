//! A user repository over Argon2 alone: a name rule, hashing and checking
//! passwords, and the row that creating a user inserts. Inserting it is the
//! caller's.
use crate::domain::CreateUser;
use crate::errors::{repo_error, RepositoryResult};
use crate::security::{
    argon2id_prefix, check_view, generated_salt, hash_spec, hash_view, max_password_len,
    verify_spec, PasswordHasherImpl, PasswordHasherRepository,
};
use crate::text::has_prefix;
use vstd::prelude::*;
use vstd::utf8::*;

verus! {

/// Whether a name is between 2 and 50 bytes long, both included.
pub open spec fn rule_name_spec(name: Seq<char>) -> bool {
    2 <= encode_utf8(name).len() <= 50
}

/// The answer to creating a user whose name passes `rule_name_spec`.
pub open spec fn name_rejected() -> (Seq<char>, u16) {
    ("username is not validate"@, 400)
}

/// The row that creating a user inserts: the name and the password's hash.
#[derive(Debug)]
pub struct NewUserRow {
    pub username: String,
    pub hashed_password: String,
}

/// Creates users and hashes their passwords.
pub trait UserRepository {
    /// Whether the name is between 2 and 50 bytes long.
    fn check_rule_name(&self, rule_name: String) -> (res: bool)
        ensures
            res == rule_name_spec(rule_name@),
    ;

    /// Hashes a password with a fresh random salt; the password checks
    /// against the hash.
    fn hash_password(&self, password: String) -> (res: RepositoryResult<String>)
        ensures
            exists|salt: Seq<char>| generated_salt(salt) && hash_view(res) == hash_spec(password@, salt),
            encode_utf8(password@).len() <= max_password_len() ==> res is Ok,
            res matches Ok(h) ==> verify_spec(h@, password@) == Ok::<bool, (Seq<char>, u16)>(true),
            res matches Ok(h) ==> has_prefix(h@, argon2id_prefix()),
    ;

    /// Checks a password against a stored hash.
    fn verify_password(&self, stored_hash: String, password: String) -> (res: RepositoryResult<bool>)
        ensures
            check_view(res) == verify_spec(stored_hash@, password@),
    ;

    /// The row that creating `user` inserts. A name that passes
    /// `check_rule_name` is refused; otherwise the row holds the name and
    /// the hash of the password, or hashing failed.
    fn create(&self, user: CreateUser) -> (res: RepositoryResult<NewUserRow>)
        ensures
            rule_name_spec(user.username@) ==> (res matches Err(e) && e@ == name_rejected()),
            !rule_name_spec(user.username@) && encode_utf8(user.password@).len()
                <= max_password_len() ==> res is Ok,
            !rule_name_spec(user.username@) ==> match res {
                Ok(row) => {
                    &&& row.username == user.username
                    &&& exists|salt: Seq<char>| generated_salt(salt) && hash_spec(user.password@, salt) == Ok::<
                        Seq<char>,
                        (Seq<char>, u16),
                    >(row.hashed_password@)
                    &&& verify_spec(row.hashed_password@, user.password@) == Ok::<
                        bool,
                        (Seq<char>, u16),
                    >(true)
                },
                Err(e) => exists|salt: Seq<char>| generated_salt(salt) && hash_spec(user.password@, salt) == Err::<
                    Seq<char>,
                    (Seq<char>, u16),
                >(e@),
            },
    ;
}

/// The user repository over Argon2.
pub struct UserRepositoryImpl {
    hasher: PasswordHasherImpl,
}

impl UserRepositoryImpl {
    pub fn new() -> (res: Self) {
        UserRepositoryImpl { hasher: PasswordHasherImpl::new() }
    }
}

impl UserRepository for UserRepositoryImpl {
    fn check_rule_name(&self, rule_name: String) -> (res: bool) {
        let len = rule_name.as_str().as_bytes().len();
        len >= 2 && len <= 50
    }

    fn hash_password(&self, password: String) -> (res: RepositoryResult<String>) {
        self.hasher.hash(password.as_str())
    }

    fn verify_password(&self, stored_hash: String, password: String) -> (res: RepositoryResult<bool>) {
        self.hasher.verify(stored_hash.as_str(), password.as_str())
    }

    fn create(&self, user: CreateUser) -> (res: RepositoryResult<NewUserRow>) {
        if self.check_rule_name(user.username.clone()) {
            return Err(repo_error("username is not validate", 400));
        }
        let hashed_password = match self.hash_password(user.password) {
            Ok(h) => h,
            Err(e) => return Err(e),
        };
        Ok(NewUserRow { username: user.username, hashed_password })
    }
}

} // verus!
