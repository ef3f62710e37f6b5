//! The authentication middleware: reads the `Authorization` header and hands
//! its value to the bearer-auth repository.
use crate::domain::{AppOrgByClientId, CleanAppOrgByClientId};
use crate::errors::{repo_error, RepositoryResult};
use crate::repositories::validate_bearer_auth_repository::{
    authentication_fits, authentication_spec, clean_view, core_prefix, credentials_spec,
    credentials_view, found_view, VaildateBearerAuthMiddlewareRepositoryImpl,
};
use crate::text::{has_prefix, strip_prefix};
use vstd::prelude::*;

verus! {

/// The answer to a request without an `Authorization` header.
pub open spec fn missing_header_failure() -> (Seq<char>, u16) {
    ("Missing Authorization"@, 400)
}

/// The answer to a header without the scheme.
pub open spec fn header_prefix_failure() -> (Seq<char>, u16) {
    ("Invalid Prefix"@, 400)
}

/// What reading the header answers: its value after the scheme.
pub open spec fn header_spec(header: Option<Seq<char>>) -> Result<Seq<char>, (Seq<char>, u16)> {
    match header {
        None => Err(missing_header_failure()),
        Some(h) => if has_prefix(h, core_prefix()) {
            Ok(h.skip(core_prefix().len() as int))
        } else {
            Err(header_prefix_failure())
        },
    }
}

/// What the first step of authenticating a request answers: the header's
/// value is read as a credential by the repository, which expects the
/// scheme again before it.
pub open spec fn header_credentials_spec(header: Option<Seq<char>>) -> Result<
    (u128, Seq<char>, Seq<char>),
    (Seq<char>, u16),
> {
    match header_spec(header) {
        Err(e) => Err(e),
        Ok(token) => credentials_spec(token),
    }
}

/// A header, taken by its view.
pub open spec fn header_view(header: Option<String>) -> Option<Seq<char>> {
    match header {
        Some(h) => Some(h@),
        None => None,
    }
}

/// Authenticates requests by their `Authorization` header, in two steps:
/// reading the credential, then deciding on what the lookup of its client
/// id found.
pub trait VaildateBearerAuthMiddlewareService {
    /// The key under which client secrets are sealed.
    spec fn cipher_key(&self) -> Seq<u8>;

    /// Reads the header into a credential to look up.
    fn authentication(&self, header: Option<String>) -> (res: RepositoryResult<(u128, String, String)>)
        ensures
            credentials_view(res) == header_credentials_spec(header_view(header)),
    ;

    /// Decides on a read credential given what its lookup found; `None` when
    /// the client key cannot serve as a nonce for the stored secret.
    fn complete_authentication(
        &self,
        credentials: (u128, String, String),
        found: RepositoryResult<AppOrgByClientId>,
    ) -> (res: Option<RepositoryResult<CleanAppOrgByClientId>>)
        ensures
            res is None <==> !authentication_fits(
                (credentials.0, credentials.1@, credentials.2@),
                found_view(found),
            ),
            res matches Some(r) ==> clean_view(r) == authentication_spec(
                self.cipher_key(),
                (credentials.0, credentials.1@, credentials.2@),
                found_view(found),
            ),
    ;
}

/// The authentication middleware service over the bearer-auth repository.
pub struct VaildateBearerAuthMiddlewareServiceImpl {
    pub repository: VaildateBearerAuthMiddlewareRepositoryImpl,
}

impl VaildateBearerAuthMiddlewareServiceImpl {
    pub fn new(repository: VaildateBearerAuthMiddlewareRepositoryImpl) -> (res: Self)
        ensures
            res.repository == repository,
    {
        VaildateBearerAuthMiddlewareServiceImpl { repository }
    }

    /// Reads the header's value after the scheme.
    pub fn parse_header(&self, header: Option<String>) -> (res: RepositoryResult<String>)
        ensures
            match res {
                Ok(s) => header_spec(header_view(header)) == Ok::<
                    Seq<char>,
                    (Seq<char>, u16),
                >(s@),
                Err(e) => header_spec(header_view(header)) == Err::<Seq<char>, (Seq<char>, u16)>(
                    e@,
                ),
            },
    {
        let header = match header {
            Some(h) => h,
            None => return Err(repo_error("Missing Authorization", 400)),
        };
        let scheme = "axcelium-core: ";
        proof {
            reveal_strlit("axcelium-core: ");
            assert(scheme@ =~= core_prefix());
        }
        match strip_prefix(header.as_str(), scheme) {
            Some(value) => Ok(value.to_owned()),
            None => Err(repo_error("Invalid Prefix", 400)),
        }
    }
}

impl VaildateBearerAuthMiddlewareService for VaildateBearerAuthMiddlewareServiceImpl {
    open spec fn cipher_key(&self) -> Seq<u8> {
        self.repository.cipher_key()
    }

    fn authentication(&self, header: Option<String>) -> (res: RepositoryResult<(u128, String, String)>) {
        let token = match self.parse_header(header) {
            Ok(t) => t,
            Err(e) => return Err(e),
        };
        self.repository.parse_axcelium_credentials(token)
    }

    fn complete_authentication(
        &self,
        credentials: (u128, String, String),
        found: RepositoryResult<AppOrgByClientId>,
    ) -> (res: Option<RepositoryResult<CleanAppOrgByClientId>>) {
        self.repository.try_authentication(credentials, found)
    }
}

} // verus!
