//! Password hashing with Argon2 (default parameters) through the `argon2`
//! crate, in the PHC string format.
use crate::errors::{hashing_error, hashing_failure, RepositoryResult};
use crate::cipher::base64_repository::b64_encode;
use crate::text::has_prefix;
use argon2::password_hash::rand_core::OsRng;
use argon2::password_hash::{PasswordHash, PasswordHasher, PasswordVerifier, SaltString};
use vstd::prelude::*;
use vstd::string::*;
use vstd::utf8::*;

verus! {

/// What hashing a password with a salt (a base64 salt text) gives: the PHC
/// string of its Argon2 hash, or `None` when the hasher refuses.
pub uninterp spec fn argon2_hash_text(password: Seq<u8>, salt: Seq<char>) -> Option<Seq<char>>;

/// What checking a password against a PHC string gives: `None` when the
/// string cannot be read as a hash, otherwise whether the password matches.
pub uninterp spec fn argon2_check(hash: Seq<char>, password: Seq<u8>) -> Option<bool>;

/// The start of every hash that Argon2 with its default parameters writes
/// in the PHC string format: the algorithm `argon2id` and version 19.
pub open spec fn argon2id_prefix() -> Seq<char> {
    "$argon2id$v=19$"@
}

/// A salt as the service draws it: the unpadded standard base64 (the PHC
/// "B64") of sixteen bytes, which is 22 characters.
pub open spec fn generated_salt(salt: Seq<char>) -> bool {
    exists|bytes: Seq<u8>| bytes.len() == 16 && salt == #[trigger] b64_encode(bytes).take(22)
}

/// The longest password, in bytes, that Argon2 hashes.
pub open spec fn max_password_len() -> nat {
    0xFFFF_FFFF
}

#[verifier::external_type_specification]
#[verifier::external_body]
pub struct ExPasswordHashError(argon2::password_hash::Error);

/// Calls `SaltString::generate` with the operating system's generator and
/// takes its text. Trusted: the salt is the B64 of sixteen random bytes, as
/// the crate draws and encodes them; which bytes is left to chance.
#[verifier::external_body]
fn generate_salt() -> (res: String)
    ensures
        generated_salt(res@),
{
    SaltString::generate(&mut OsRng).as_str().to_owned()
}

/// Calls `Argon2::default().hash_password` with the salt read by
/// `SaltString::from_b64`, and renders the PHC string. Trusted: the result
/// is `argon2_hash_text` of the password and salt; as the crate documents,
/// the password checks against the hash it gives; the PHC string starts
/// with the default algorithm and version, `$argon2id$v=19$`; and with a
/// salt as `generate_salt` draws it and a password of at most 0xFFFFFFFF
/// bytes, the crate's checks on salt and password all pass, so it succeeds.
#[verifier::external_body]
fn argon2_hash_password(password: &[u8], salt: &str) -> (res: Result<
    String,
    argon2::password_hash::Error,
>)
    ensures
        res is Ok <==> argon2_hash_text(password@, salt@) is Some,
        res matches Ok(h) ==> argon2_hash_text(password@, salt@) == Some(h@) && argon2_check(
            h@,
            password@,
        ) == Some(true),
        res matches Ok(h) ==> has_prefix(h@, argon2id_prefix()),
        generated_salt(salt@) && password@.len() <= max_password_len() ==> res is Ok,
{
    let salt = SaltString::from_b64(salt)?;
    argon2::Argon2::default().hash_password(password, &salt).map(|h| h.to_string())
}

/// Calls `PasswordHash::new` on the stored string and then
/// `Argon2::default().verify_password`. Trusted: the result is
/// `argon2_check` of the string and password.
#[verifier::external_body]
fn argon2_verify_password(hashed: &str, plain: &[u8]) -> (res: Result<
    bool,
    argon2::password_hash::Error,
>)
    ensures
        res is Ok <==> argon2_check(hashed@, plain@) is Some,
        res matches Ok(b) ==> argon2_check(hashed@, plain@) == Some(b),
{
    let parsed = PasswordHash::new(hashed)?;
    Ok(argon2::Argon2::default().verify_password(plain, &parsed).is_ok())
}

/// What hashing a password with a salt answers.
pub open spec fn hash_spec(password: Seq<char>, salt: Seq<char>) -> Result<Seq<char>, (Seq<char>, u16)> {
    match argon2_hash_text(encode_utf8(password), salt) {
        Some(h) => Ok(h),
        None => Err(hashing_failure()),
    }
}

/// What checking a password against a stored hash answers.
pub open spec fn verify_spec(hashed: Seq<char>, plain: Seq<char>) -> Result<bool, (Seq<char>, u16)> {
    match argon2_check(hashed, encode_utf8(plain)) {
        Some(b) => Ok(b),
        None => Err(hashing_failure()),
    }
}

/// A text, or an error, taken by views.
pub open spec fn hash_view(r: RepositoryResult<String>) -> Result<Seq<char>, (Seq<char>, u16)> {
    match r {
        Ok(h) => Ok(h@),
        Err(e) => Err(e@),
    }
}

/// A verdict, or an error, taken by views.
pub open spec fn check_view(r: RepositoryResult<bool>) -> Result<bool, (Seq<char>, u16)> {
    match r {
        Ok(b) => Ok(b),
        Err(e) => Err(e@),
    }
}

/// Hashes and checks passwords.
pub trait PasswordHasherRepository {
    /// Hashes under a freshly drawn salt; the password checks against the
    /// hash, which is an Argon2id PHC string; a password of at most
    /// 0xFFFFFFFF bytes is always hashed.
    fn hash(&self, password: &str) -> (res: RepositoryResult<String>)
        ensures
            exists|salt: Seq<char>| generated_salt(salt) && hash_view(res) == hash_spec(password@, salt),
            encode_utf8(password@).len() <= max_password_len() ==> res is Ok,
            res matches Ok(h) ==> verify_spec(h@, password@) == Ok::<bool, (Seq<char>, u16)>(true),
            res matches Ok(h) ==> has_prefix(h@, argon2id_prefix()),
    ;

    /// Checks a password against a stored hash.
    fn verify(&self, hashed: &str, plain: &str) -> (res: RepositoryResult<bool>)
        ensures
            check_view(res) == verify_spec(hashed@, plain@),
    ;
}

/// The Argon2 password hasher of the service.
pub struct PasswordHasherImpl;

impl PasswordHasherImpl {
    pub fn new() -> (res: Self) {
        PasswordHasherImpl
    }

    /// Hashes with the given base64 salt.
    pub fn hash_with_salt(&self, password: &str, salt: &str) -> (res: RepositoryResult<String>)
        ensures
            hash_view(res) == hash_spec(password@, salt@),
            res matches Ok(h) ==> verify_spec(h@, password@) == Ok::<bool, (Seq<char>, u16)>(true),
            res matches Ok(h) ==> has_prefix(h@, argon2id_prefix()),
            generated_salt(salt@) && encode_utf8(password@).len() <= max_password_len() ==> res is Ok,
    {
        match argon2_hash_password(password.as_bytes(), salt) {
            Ok(h) => Ok(h),
            Err(_) => Err(hashing_error()),
        }
    }
}

impl PasswordHasherRepository for PasswordHasherImpl {
    fn hash(&self, password: &str) -> (res: RepositoryResult<String>) {
        let salt = generate_salt();
        self.hash_with_salt(password, salt.as_str())
    }

    fn verify(&self, hashed: &str, plain: &str) -> (res: RepositoryResult<bool>) {
        match argon2_verify_password(hashed, plain.as_bytes()) {
            Ok(b) => Ok(b),
            Err(_) => Err(hashing_error()),
        }
    }
}

} // verus!
