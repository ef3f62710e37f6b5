//! Bearer authentication of client applications. A client presents
//! `axcelium-core: <base64 client id>.<client key>.<base64 client secret>`;
//! the client key is the base64 nonce under which the client secret was
//! sealed, and the secret must decrypt to the presented one.
use crate::cipher::aes_gcm_repository::{
    decrypt_spec, nonce_fits, AesGcmCipherImpl, AesGcmCipherRepository,
};
use crate::cipher::base64_repository::{b64_decode, Base64Repository, Base64RepositoryImpl};
use crate::domain::{clean_apporg, AppOrgByClientId, CleanAppOrgByClientId};
use crate::errors::{base64_error, base64_failure, repo_error, RepositoryResult};
use crate::ids::{parse_uuid, uuid_parse};
use crate::text::{
    has_prefix, split_on, split_three, string_from_utf8_lossy, strip_prefix, utf8_lossy,
};
use vstd::prelude::*;

verus! {

/// The scheme that a credential begins with.
pub open spec fn core_prefix() -> Seq<char> {
    seq!['a', 'x', 'c', 'e', 'l', 'i', 'u', 'm', '-', 'c', 'o', 'r', 'e', ':', ' ']
}

/// The answer to a credential without the scheme.
pub open spec fn missing_prefix_failure() -> (Seq<char>, u16) {
    ("missing axcelium-core prefix"@, 400)
}

/// The answer to a credential that is not three dot-separated parts.
pub open spec fn credential_format_failure() -> (Seq<char>, u16) {
    ("invalid credential format"@, 400)
}

/// The answer to a client id that is not a UUID.
pub open spec fn client_id_failure() -> (Seq<char>, u16) {
    ("invalid client id"@, 400)
}

/// The answer to a client secret that does not match.
pub open spec fn unauthorized_failure() -> (Seq<char>, u16) {
    ("unauth"@, 401)
}

/// What reading a credential answers: the scheme is stripped, the rest split
/// at dots into exactly three parts; the first and the third are base64
/// decoded, in that order; the first, read as UTF-8 with replacement, must be
/// a UUID, the client id; the second is the client key as it stands; the
/// third, read as UTF-8 with replacement, is the client secret.
pub open spec fn credentials_spec(input: Seq<char>) -> Result<
    (u128, Seq<char>, Seq<char>),
    (Seq<char>, u16),
> {
    if !has_prefix(input, core_prefix()) {
        Err(missing_prefix_failure())
    } else {
        let parts = split_on(input.skip(core_prefix().len() as int), '.');
        if parts.len() != 3 {
            Err(credential_format_failure())
        } else {
            match b64_decode(parts[0]) {
                None => Err(base64_failure()),
                Some(id_bytes) => match b64_decode(parts[2]) {
                    None => Err(base64_failure()),
                    Some(secret_bytes) => match uuid_parse(utf8_lossy(id_bytes)) {
                        None => Err(client_id_failure()),
                        Some(id) => Ok((id, parts[1], utf8_lossy(secret_bytes))),
                    },
                },
            }
        }
    }
}

/// A credential, or an error, taken by views.
pub open spec fn credentials_view(r: RepositoryResult<(u128, String, String)>) -> Result<
    (u128, Seq<char>, Seq<char>),
    (Seq<char>, u16),
> {
    match r {
        Ok((id, key, secret)) => Ok((id, key@, secret@)),
        Err(e) => Err(e@),
    }
}

/// What authenticating a read credential answers, given what the lookup of
/// its client id found: a failed lookup is answered as it is; otherwise the
/// stored encrypted secret is decrypted with the client key as nonce, and
/// must equal the presented secret.
pub open spec fn authentication_spec(
    key: Seq<u8>,
    credentials: (u128, Seq<char>, Seq<char>),
    found: Result<AppOrgByClientId, (Seq<char>, u16)>,
) -> Result<CleanAppOrgByClientId, (Seq<char>, u16)> {
    match found {
        Err(e) => Err(e),
        Ok(apporg) => match decrypt_spec(key, credentials.1, apporg.encrypted_client_secret@) {
            Err(e) => Err(e),
            Ok(decrypted) => if decrypted != credentials.2 {
                Err(unauthorized_failure())
            } else {
                Ok(clean_apporg(apporg))
            },
        },
    }
}

/// An authenticated request carries the found application's own ids: a
/// success answers the client, application and organization that the lookup
/// found, with their names, and only when the stored secret decrypts to the
/// presented one.
pub proof fn law_authentication_carries_found_ids(
    key: Seq<u8>,
    credentials: (u128, Seq<char>, Seq<char>),
    apporg: AppOrgByClientId,
)
    ensures
        authentication_spec(key, credentials, Ok(apporg)) matches Ok(c) ==> {
            &&& c.client_id == apporg.client_id
            &&& c.application_id == apporg.application_id
            &&& c.organization_id == apporg.organization_id
            &&& c.organization_name == apporg.organization_name
            &&& c.application_name == apporg.application_name
            &&& decrypt_spec(key, credentials.1, apporg.encrypted_client_secret@) == Ok::<
                Seq<char>,
                (Seq<char>, u16),
            >(credentials.2)
        },
{
}

/// The cipher can be called for a credential and what was found: the client
/// key fits as a nonce for the stored secret.
pub open spec fn authentication_fits(
    credentials: (u128, Seq<char>, Seq<char>),
    found: Result<AppOrgByClientId, (Seq<char>, u16)>,
) -> bool {
    found matches Ok(apporg) ==> nonce_fits(credentials.1, apporg.encrypted_client_secret@)
}

/// A lookup result, taken by views.
pub open spec fn found_view(found: RepositoryResult<AppOrgByClientId>) -> Result<
    AppOrgByClientId,
    (Seq<char>, u16),
> {
    match found {
        Ok(a) => Ok(a),
        Err(e) => Err(e@),
    }
}

/// An authentication result, taken by views.
pub open spec fn clean_view(r: RepositoryResult<CleanAppOrgByClientId>) -> Result<
    CleanAppOrgByClientId,
    (Seq<char>, u16),
> {
    match r {
        Ok(c) => Ok(c),
        Err(e) => Err(e@),
    }
}

/// Authenticates client applications by their bearer credentials. The
/// lookup of the application by client id is the caller's: it reads the
/// credential, looks the client id up, and hands over what it found.
pub struct VaildateBearerAuthMiddlewareRepositoryImpl {
    base64_repo: Base64RepositoryImpl,
    aes_repo: AesGcmCipherImpl,
}

impl VaildateBearerAuthMiddlewareRepositoryImpl {
    /// The key under which client secrets are sealed.
    pub closed spec fn cipher_key(&self) -> Seq<u8> {
        self.aes_repo.key()
    }

    pub fn new(base64_repo: Base64RepositoryImpl, aes_repo: AesGcmCipherImpl) -> (res: Self)
        ensures
            res.cipher_key() == aes_repo.key(),
    {
        VaildateBearerAuthMiddlewareRepositoryImpl { base64_repo, aes_repo }
    }

    /// Reads a credential into client id, client key and client secret.
    pub fn parse_axcelium_credentials(&self, input: String) -> (res: RepositoryResult<
        (u128, String, String),
    >)
        ensures
            credentials_view(res) == credentials_spec(input@),
    {
        let scheme = "axcelium-core: ";
        proof {
            reveal_strlit("axcelium-core: ");
            assert(scheme@ =~= core_prefix());
        }
        let without_prefix = match strip_prefix(input.as_str(), scheme) {
            Some(rest) => rest,
            None => return Err(repo_error("missing axcelium-core prefix", 400)),
        };
        let (id_part, key_part, secret_part) = match split_three(without_prefix, '.') {
            Some(parts) => parts,
            None => return Err(repo_error("invalid credential format", 400)),
        };
        let decoded_client_id = match self.base64_repo.decode(id_part) {
            Ok(bytes) => bytes,
            Err(_) => return Err(base64_error()),
        };
        let decoded_client_secret = match self.base64_repo.decode(secret_part) {
            Ok(bytes) => bytes,
            Err(_) => return Err(base64_error()),
        };
        let id_text = string_from_utf8_lossy(decoded_client_id.as_slice());
        let client_id = match parse_uuid(id_text.as_str()) {
            Ok(id) => id,
            Err(_) => return Err(repo_error("invalid client id", 400)),
        };
        let client_secret = string_from_utf8_lossy(decoded_client_secret.as_slice());
        Ok((client_id, key_part.to_owned(), client_secret))
    }

    /// Authenticates a read credential against what the lookup of its client
    /// id found.
    pub fn authentication(
        &self,
        credentials: (u128, String, String),
        found: RepositoryResult<AppOrgByClientId>,
    ) -> (res: RepositoryResult<CleanAppOrgByClientId>)
        requires
            authentication_fits((credentials.0, credentials.1@, credentials.2@), found_view(found)),
        ensures
            clean_view(res) == authentication_spec(
                self.cipher_key(),
                (credentials.0, credentials.1@, credentials.2@),
                found_view(found),
            ),
    {
        let (_client_id, client_key, client_secret) = credentials;
        let apporg = match found {
            Ok(a) => a,
            Err(e) => return Err(e),
        };
        let decrypted = match self.aes_repo.decrypt(
            client_key.as_str(),
            apporg.encrypted_client_secret.as_str(),
        ) {
            Ok(d) => d,
            Err(e) => return Err(e),
        };
        if decrypted != client_secret {
            return Err(repo_error("unauth", 401));
        }
        Ok(CleanAppOrgByClientId::from(apporg))
    }

    /// Authenticates when the client key fits as a nonce, and answers `None`
    /// otherwise, where the cipher cannot be called.
    pub fn try_authentication(
        &self,
        credentials: (u128, String, String),
        found: RepositoryResult<AppOrgByClientId>,
    ) -> (res: Option<RepositoryResult<CleanAppOrgByClientId>>)
        ensures
            res is None <==> !authentication_fits(
                (credentials.0, credentials.1@, credentials.2@),
                found_view(found),
            ),
            res matches Some(r) ==> clean_view(r) == authentication_spec(
                self.cipher_key(),
                (credentials.0, credentials.1@, credentials.2@),
                found_view(found),
            ),
    {
        let (_client_id, client_key, client_secret) = credentials;
        let apporg = match found {
            Ok(a) => a,
            Err(e) => return Some(Err(e)),
        };
        let decrypted = match self.aes_repo.try_decrypt(
            client_key.as_str(),
            apporg.encrypted_client_secret.as_str(),
        ) {
            None => return None,
            Some(Ok(d)) => d,
            Some(Err(e)) => return Some(Err(e)),
        };
        if decrypted != client_secret {
            return Some(Err(repo_error("unauth", 401)));
        }
        Some(Ok(CleanAppOrgByClientId::from(apporg)))
    }
}

} // verus!
