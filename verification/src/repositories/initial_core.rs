//! Creating the core organization and application: sealing the client
//! secret and issuing the client token that authenticates the core client.
use crate::cipher::aes_gcm_repository::{
    decrypt_spec, encrypt_spec, nonce_fits, plaintext_text, AesGcmCipherImpl, AesGcmCipherRepository,
};
use crate::cipher::base64_repository::{
    b64_decode, b64_encode, lemma_b64_lacks_dot, Base64Repository, Base64RepositoryImpl,
};
use crate::errors::{base64_failure, RepositoryResult};
use crate::ids::{uuid_text, uuid_to_string};
use crate::domain::{clean_apporg, AppOrgByClientId, CleanAppOrgByClientId};
use crate::repositories::validate_bearer_auth_repository::{
    authentication_fits, authentication_spec, core_prefix, credentials_spec,
};
use crate::text::{lacks, lemma_split_three, utf8_lossy};
use vstd::prelude::*;
use vstd::string::*;
use vstd::utf8::*;

verus! {

/// The client token of a client: the base64 of the UTF-8 of its id's text,
/// the client key and the client secret, joined by dots.
pub open spec fn client_token_text(client_id: u128, client_key: Seq<char>, client_secret: Seq<char>) -> Seq<char> {
    b64_encode(encode_utf8(uuid_text(client_id))) + seq!['.'] + client_key + seq!['.'] + client_secret
}

/// What reading the credential of a client token answers: the client id,
/// the key, and the decoded secret read as UTF-8 with replacement.
pub open spec fn issued_credentials(client_id: u128, client_key: Seq<char>, client_secret: Seq<char>) -> Result<
    (u128, Seq<char>, Seq<char>),
    (Seq<char>, u16),
> {
    match b64_decode(client_secret) {
        None => Err(base64_failure()),
        Some(bytes) => Ok((client_id, client_key, utf8_lossy(bytes))),
    }
}

/// The sealed form of a client secret: the base64 nonce, which is the
/// client key, the base64 ciphertext that is stored, and the base64 secret
/// that the client presents.
pub struct SealedClientSecret {
    pub nonce: String,
    pub encrypted_client_secret: String,
    pub base64_secret: String,
}

/// Creates the core organization's application secrets and tokens.
pub struct InitialCoreImpl {
    aes_repo: AesGcmCipherImpl,
    base64_repo: Base64RepositoryImpl,
}

impl InitialCoreImpl {
    /// The key under which client secrets are sealed.
    pub closed spec fn cipher_key(&self) -> Seq<u8> {
        self.aes_repo.key()
    }

    pub fn new(aes_repo: AesGcmCipherImpl, base64_repo: Base64RepositoryImpl) -> (res: Self)
        ensures
            res.cipher_key() == aes_repo.key(),
    {
        InitialCoreImpl { aes_repo, base64_repo }
    }

    /// The client token of a client. Read back with the scheme before it, it
    /// gives the client id, the key and the decoded secret, whenever neither
    /// key nor secret holds a dot.
    pub fn create_client_token(&self, client_id: u128, client_key: String, client_secret: String) -> (res: String)
        ensures
            res@ == client_token_text(client_id, client_key@, client_secret@),
            lacks(client_key@, '.') && lacks(client_secret@, '.') ==> credentials_spec(
                core_prefix() + res@,
            ) == issued_credentials(client_id, client_key@, client_secret@),
    {
        let id_text = uuid_to_string(client_id);
        let id_bytes = id_text.as_str().as_bytes();
        let mut token = self.base64_repo.encode(id_bytes);
        let ghost encoded_id = token@;
        token.append(".");
        token.append(client_key.as_str());
        token.append(".");
        token.append(client_secret.as_str());
        proof {
            reveal_strlit(".");
            assert(token@ =~= client_token_text(client_id, client_key@, client_secret@));
            if lacks(client_key@, '.') && lacks(client_secret@, '.') {
                let input = core_prefix() + token@;
                assert(input.take(core_prefix().len() as int) =~= core_prefix());
                assert(input.skip(core_prefix().len() as int) =~= token@);
                lemma_b64_lacks_dot(id_bytes@);
                lemma_split_three(encoded_id, client_key@, client_secret@, '.');
                encode_utf8_valid_utf8(id_text@);
                encode_utf8_decode_utf8(id_text@);
            }
        }
        token
    }

    /// Seals a client secret under a fresh random twelve-byte nonce: the
    /// base64 of the nonce and of the sealed secret, or the cipher's error
    /// where sealing under that nonce is refused. Decrypting the stored
    /// ciphertext with the nonce gives the secret back, as text when it is
    /// valid UTF-8; the presented base64 secret decodes to it; and neither
    /// the nonce nor the base64 secret holds a dot.
    pub fn seal_client_secret(&self, client_secret: &[u8]) -> (res: RepositoryResult<SealedClientSecret>)
        ensures
            exists|n: Seq<u8>|
                n.len() == 12 && match res {
                    Ok(s) => encrypt_spec(self.cipher_key(), n, client_secret@) == Ok::<
                        (Seq<char>, Seq<char>),
                        (Seq<char>, u16),
                    >((s.nonce@, s.encrypted_client_secret@)),
                    Err(e) => encrypt_spec(self.cipher_key(), n, client_secret@) == Err::<
                        (Seq<char>, Seq<char>),
                        (Seq<char>, u16),
                    >(e@),
                },
            res matches Ok(s) ==> {
                &&& nonce_fits(s.nonce@, s.encrypted_client_secret@)
                &&& decrypt_spec(self.cipher_key(), s.nonce@, s.encrypted_client_secret@)
                    == plaintext_text(client_secret@)
                &&& b64_decode(s.base64_secret@) == Some(client_secret@)
                &&& s.base64_secret@ == b64_encode(client_secret@)
                &&& lacks(s.nonce@, '.')
                &&& lacks(s.base64_secret@, '.')
            },
    {
        let (nonce, encrypted_client_secret) = match self.aes_repo.encrypt(client_secret) {
            Ok(pair) => pair,
            Err(e) => return Err(e),
        };
        let base64_secret = self.base64_repo.encode(client_secret);
        proof {
            lemma_b64_lacks_dot(client_secret@);
            let n = choose|n: Seq<u8>|
                n.len() == 12 && encrypt_spec(self.aes_repo.key(), n, client_secret@) == Ok::<
                    (Seq<char>, Seq<char>),
                    (Seq<char>, u16),
                >((nonce@, encrypted_client_secret@));
            lemma_b64_lacks_dot(n);
        }
        Ok(SealedClientSecret { nonce, encrypted_client_secret, base64_secret })
    }
}

/// A client is authenticated by the token issued to it. Take a secret that
/// is valid UTF-8 and sealed as `seal_client_secret` ensures, a token that
/// reads back as `create_client_token` ensures for the client id, the
/// sealed nonce as key and the base64 secret, and a lookup that finds the
/// application storing the sealed ciphertext: the credential is read as the
/// client id, the nonce and the secret's text, the nonce fits, and the
/// application is authenticated.
pub proof fn law_issued_token_authenticates(
    key: Seq<u8>,
    client_id: u128,
    token: Seq<char>,
    sealed: (Seq<char>, Seq<char>, Seq<char>),
    secret: Seq<u8>,
    apporg: AppOrgByClientId,
)
    requires
        valid_utf8(secret),
        nonce_fits(sealed.0, sealed.1),
        decrypt_spec(key, sealed.0, sealed.1) == plaintext_text(secret),
        b64_decode(sealed.2) == Some(secret),
        credentials_spec(core_prefix() + token) == issued_credentials(client_id, sealed.0, sealed.2),
        apporg.encrypted_client_secret@ == sealed.1,
    ensures
        credentials_spec(core_prefix() + token) == Ok::<
            (u128, Seq<char>, Seq<char>),
            (Seq<char>, u16),
        >((client_id, sealed.0, decode_utf8(secret))),
        authentication_fits((client_id, sealed.0, decode_utf8(secret)), Ok(apporg)),
        authentication_spec(key, (client_id, sealed.0, decode_utf8(secret)), Ok(apporg)) == Ok::<
            CleanAppOrgByClientId,
            (Seq<char>, u16),
        >(clean_apporg(apporg)),
{
}

} // verus!
