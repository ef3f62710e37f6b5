//! AES-256-GCM encryption of secrets, through the `aes-gcm` crate; nonces
//! and ciphertexts travel as standard base64.
use crate::cipher::base64_repository::{b64_decode, b64_decode_text, b64_encode, b64_encode_bytes};
use crate::errors::{
    base64_error, base64_failure, cipher_error, cipher_failure, text_result_view, RepositoryResult,
};
use crate::text::string_from_utf8;
use aes_gcm::aead::{Aead, AeadCore, KeyInit, OsRng};
use vstd::prelude::*;
use vstd::utf8::*;

verus! {

/// What AES-256-GCM sealing gives for a key, a nonce and a plaintext: the
/// ciphertext with its tag, or `None` when the crate refuses.
pub uninterp spec fn aes_gcm_seal(key: Seq<u8>, nonce: Seq<u8>, plaintext: Seq<u8>) -> Option<
    Seq<u8>,
>;

/// What AES-256-GCM opening gives for a key, a nonce and a ciphertext: the
/// plaintext, or `None` when authentication fails.
pub uninterp spec fn aes_gcm_open(key: Seq<u8>, nonce: Seq<u8>, ciphertext: Seq<u8>) -> Option<
    Seq<u8>,
>;

#[verifier::external_type_specification]
#[verifier::external_body]
pub struct ExAeadError(aes_gcm::Error);

/// Calls `Aes256Gcm::generate_nonce` with the operating system's generator.
/// Trusted: the nonce is twelve bytes; which bytes is left to chance.
#[verifier::external_body]
fn aes256_gcm_generate_nonce() -> (res: Vec<u8>)
    ensures
        res@.len() == 12,
{
    aes_gcm::Aes256Gcm::generate_nonce(&mut OsRng).to_vec()
}

/// Calls `Aes256Gcm::encrypt` with a cipher made from the key. Trusted: the
/// result is `aes_gcm_seal` of the arguments, and, as an AEAD promises,
/// opening the ciphertext with the same key and nonce gives the plaintext.
#[verifier::external_body]
fn aes256_gcm_encrypt(key: &[u8], nonce: &[u8], plaintext: &[u8]) -> (res: Result<
    Vec<u8>,
    aes_gcm::Error,
>)
    requires
        key@.len() == 32,
        nonce@.len() == 12,
    ensures
        res is Ok <==> aes_gcm_seal(key@, nonce@, plaintext@) is Some,
        res matches Ok(c) ==> aes_gcm_seal(key@, nonce@, plaintext@) == Some(c@) && aes_gcm_open(
            key@,
            nonce@,
            c@,
        ) == Some(plaintext@),
{
    let cipher = aes_gcm::Aes256Gcm::new(aes_gcm::Key::<aes_gcm::Aes256Gcm>::from_slice(key));
    cipher.encrypt(aes_gcm::Nonce::from_slice(nonce), plaintext)
}

/// Calls `Aes256Gcm::decrypt` with a cipher made from the key. Trusted: it
/// succeeds exactly when `aes_gcm_open` gives a plaintext, and gives it.
#[verifier::external_body]
fn aes256_gcm_decrypt(key: &[u8], nonce: &[u8], ciphertext: &[u8]) -> (res: Result<
    Vec<u8>,
    aes_gcm::Error,
>)
    requires
        key@.len() == 32,
        nonce@.len() == 12,
    ensures
        res is Ok <==> aes_gcm_open(key@, nonce@, ciphertext@) is Some,
        res matches Ok(p) ==> aes_gcm_open(key@, nonce@, ciphertext@) == Some(p@),
{
    let cipher = aes_gcm::Aes256Gcm::new(aes_gcm::Key::<aes_gcm::Aes256Gcm>::from_slice(key));
    cipher.decrypt(aes_gcm::Nonce::from_slice(nonce), ciphertext)
}

/// The nonce of a decryption is twelve bytes whenever both texts decode;
/// on any other nonce the cipher cannot be called.
pub open spec fn nonce_fits(nonce_b64: Seq<char>, ciphertext_b64: Seq<char>) -> bool {
    (b64_decode(nonce_b64) is Some && b64_decode(ciphertext_b64) is Some) ==> b64_decode(
        nonce_b64,
    )->0.len() == 12
}

/// What decrypting base64 texts under a key answers: the nonce and then the
/// ciphertext are decoded, the ciphertext opened, and the plaintext read as
/// UTF-8; a failure of the cipher or of the UTF-8 is the same cipher error.
pub open spec fn decrypt_spec(key: Seq<u8>, nonce_b64: Seq<char>, ciphertext_b64: Seq<char>) -> Result<
    Seq<char>,
    (Seq<char>, u16),
> {
    match b64_decode(nonce_b64) {
        None => Err(base64_failure()),
        Some(nonce) => match b64_decode(ciphertext_b64) {
            None => Err(base64_failure()),
            Some(ct) => match aes_gcm_open(key, nonce, ct) {
                None => Err(cipher_failure()),
                Some(pt) => if valid_utf8(pt) {
                    Ok(decode_utf8(pt))
                } else {
                    Err(cipher_failure())
                },
            },
        },
    }
}

/// What decrypting gives back of an encrypted plaintext: its text when it is
/// valid UTF-8, the cipher error otherwise.
pub open spec fn plaintext_text(plaintext: Seq<u8>) -> Result<Seq<char>, (Seq<char>, u16)> {
    if valid_utf8(plaintext) {
        Ok(decode_utf8(plaintext))
    } else {
        Err(cipher_failure())
    }
}

/// What encrypting under a key with a given nonce answers: the base64 of the
/// nonce and of the sealed plaintext.
pub open spec fn encrypt_spec(key: Seq<u8>, nonce: Seq<u8>, plaintext: Seq<u8>) -> Result<
    (Seq<char>, Seq<char>),
    (Seq<char>, u16),
> {
    match aes_gcm_seal(key, nonce, plaintext) {
        Some(ct) => Ok((b64_encode(nonce), b64_encode(ct))),
        None => Err(cipher_failure()),
    }
}

/// A pair of texts, or an error, taken by views.
pub open spec fn pair_result_view(r: RepositoryResult<(String, String)>) -> Result<
    (Seq<char>, Seq<char>),
    (Seq<char>, u16),
> {
    match r {
        Ok((a, b)) => Ok((a@, b@)),
        Err(e) => Err(e@),
    }
}

/// Encrypts secrets under a fixed key.
pub trait AesGcmCipherRepository {
    /// The key the cipher encrypts under.
    spec fn cipher_key(&self) -> Seq<u8>;

    /// Encrypts under a fresh random nonce; answers the base64 of the nonce
    /// and of the ciphertext.
    fn encrypt(&self, plaintext: &[u8]) -> (res: RepositoryResult<(String, String)>)
        ensures
            exists|nonce: Seq<u8>|
                nonce.len() == 12 && pair_result_view(res) == encrypt_spec(
                    self.cipher_key(),
                    nonce,
                    plaintext@,
                ),
            res matches Ok((n, c)) ==> nonce_fits(n@, c@) && decrypt_spec(
                self.cipher_key(),
                n@,
                c@,
            ) == plaintext_text(plaintext@),
    ;

    /// Decrypts a base64 ciphertext with a base64 nonce into text.
    fn decrypt(&self, nonce_b64: &str, ciphertext_b64: &str) -> (res: RepositoryResult<String>)
        requires
            nonce_fits(nonce_b64@, ciphertext_b64@),
        ensures
            text_result_view(res) == decrypt_spec(self.cipher_key(), nonce_b64@, ciphertext_b64@),
    ;
}

/// The AES-256-GCM cipher of the service, holding its 32-byte key.
pub struct AesGcmCipherImpl {
    key: Vec<u8>,
}

impl AesGcmCipherImpl {
    #[verifier::type_invariant]
    spec fn key_is_256_bits(&self) -> bool {
        self.key@.len() == 32
    }

    /// The key of the cipher.
    pub closed spec fn key(&self) -> Seq<u8> {
        self.key@
    }

    /// A cipher under the given key, which must be 32 bytes.
    pub fn new(key_bytes: &[u8]) -> (res: Self)
        requires
            key_bytes@.len() == 32,
        ensures
            res.key() == key_bytes@,
    {
        AesGcmCipherImpl { key: vstd::slice::slice_to_vec(key_bytes) }
    }

    /// Encrypts under the given twelve-byte nonce.
    pub fn encrypt_with_nonce(&self, nonce: &[u8], plaintext: &[u8]) -> (res: RepositoryResult<
        (String, String),
    >)
        requires
            nonce@.len() == 12,
        ensures
            pair_result_view(res) == encrypt_spec(self.key(), nonce@, plaintext@),
            res matches Ok((n, c)) ==> nonce_fits(n@, c@) && decrypt_spec(self.key(), n@, c@)
                == plaintext_text(plaintext@),
    {
        proof {
            use_type_invariant(self);
        }
        match aes256_gcm_encrypt(self.key.as_slice(), nonce, plaintext) {
            Ok(ciphertext) => {
                let nonce_b64 = b64_encode_bytes(nonce);
                let ciphertext_b64 = b64_encode_bytes(ciphertext.as_slice());
                Ok((nonce_b64, ciphertext_b64))
            },
            Err(_) => Err(cipher_error()),
        }
    }

    /// Decrypts when the nonce fits, and answers `None`, without calling the
    /// cipher, when both texts decode and the nonce is not twelve bytes.
    pub fn try_decrypt(&self, nonce_b64: &str, ciphertext_b64: &str) -> (res: Option<
        RepositoryResult<String>,
    >)
        ensures
            res is None <==> !nonce_fits(nonce_b64@, ciphertext_b64@),
            res matches Some(r) ==> text_result_view(r) == decrypt_spec(
                self.key(),
                nonce_b64@,
                ciphertext_b64@,
            ),
    {
        let nonce = b64_decode_text(nonce_b64);
        let ciphertext = b64_decode_text(ciphertext_b64);
        match (nonce, ciphertext) {
            (Ok(n), Ok(_)) => {
                if n.len() != 12 {
                    return None;
                }
            },
            _ => {},
        }
        Some(self.decrypt(nonce_b64, ciphertext_b64))
    }
}

impl AesGcmCipherRepository for AesGcmCipherImpl {
    open spec fn cipher_key(&self) -> Seq<u8> {
        self.key()
    }

    fn encrypt(&self, plaintext: &[u8]) -> (res: RepositoryResult<(String, String)>) {
        let nonce = aes256_gcm_generate_nonce();
        self.encrypt_with_nonce(nonce.as_slice(), plaintext)
    }

    fn decrypt(&self, nonce_b64: &str, ciphertext_b64: &str) -> (res: RepositoryResult<String>) {
        proof {
            use_type_invariant(self);
        }
        let nonce = match b64_decode_text(nonce_b64) {
            Ok(n) => n,
            Err(_) => return Err(base64_error()),
        };
        let ciphertext = match b64_decode_text(ciphertext_b64) {
            Ok(c) => c,
            Err(_) => return Err(base64_error()),
        };
        let plaintext = match aes256_gcm_decrypt(self.key.as_slice(), nonce.as_slice(), ciphertext.as_slice()) {
            Ok(p) => p,
            Err(_) => return Err(cipher_error()),
        };
        match string_from_utf8(plaintext) {
            Ok(s) => Ok(s),
            Err(_) => Err(cipher_error()),
        }
    }
}

} // verus!
