//! The entities that the repositories and services exchange. A UUID is held
//! as its `u128`, a timestamp as its milliseconds since the epoch.
use vstd::prelude::*;

verus! {

/// An application together with its organization, as found by client id.
#[derive(Debug)]
pub struct AppOrgByClientId {
    pub client_id: u128,
    pub application_id: u128,
    pub organization_id: u128,
    pub organization_name: String,
    pub organization_slug: String,
    pub application_name: String,
    pub application_description: String,
    pub application_config: String,
    pub contact_email: String,
    pub is_active: bool,
    pub encrypted_client_secret: String,
    pub created_at: i64,
    pub updated_at: i64,
}

/// An application together with its organization, without the encrypted
/// client secret: what an authenticated request carries on.
#[derive(Debug)]
pub struct CleanAppOrgByClientId {
    pub client_id: u128,
    pub application_id: u128,
    pub organization_id: u128,
    pub organization_name: String,
    pub organization_slug: String,
    pub application_name: String,
    pub application_description: String,
    pub application_config: String,
    pub contact_email: String,
    pub is_active: bool,
    pub created_at: i64,
    pub updated_at: i64,
}

/// The clean form of an application and organization: every field but the
/// encrypted client secret.
pub open spec fn clean_apporg(a: AppOrgByClientId) -> CleanAppOrgByClientId {
    CleanAppOrgByClientId {
        client_id: a.client_id,
        application_id: a.application_id,
        organization_id: a.organization_id,
        organization_name: a.organization_name,
        organization_slug: a.organization_slug,
        application_name: a.application_name,
        application_description: a.application_description,
        application_config: a.application_config,
        contact_email: a.contact_email,
        is_active: a.is_active,
        created_at: a.created_at,
        updated_at: a.updated_at,
    }
}

/// The clean form of a found application keeps each of its fields but the
/// secret: the same client, application and organization, names, config,
/// contact, state and times.
pub proof fn law_clean_apporg_keeps_fields(a: AppOrgByClientId)
    ensures
        clean_apporg(a).client_id == a.client_id,
        clean_apporg(a).application_id == a.application_id,
        clean_apporg(a).organization_id == a.organization_id,
        clean_apporg(a).organization_name == a.organization_name,
        clean_apporg(a).organization_slug == a.organization_slug,
        clean_apporg(a).application_name == a.application_name,
        clean_apporg(a).application_description == a.application_description,
        clean_apporg(a).application_config == a.application_config,
        clean_apporg(a).contact_email == a.contact_email,
        clean_apporg(a).is_active == a.is_active,
        clean_apporg(a).created_at == a.created_at,
        clean_apporg(a).updated_at == a.updated_at,
{
}

impl From<AppOrgByClientId> for CleanAppOrgByClientId {
    fn from(a: AppOrgByClientId) -> (res: Self)
        ensures
            res.client_id == a.client_id,
            res.application_id == a.application_id,
            res.organization_id == a.organization_id,
            res.organization_name == a.organization_name,
            res.organization_slug == a.organization_slug,
            res.application_name == a.application_name,
            res.application_description == a.application_description,
            res.application_config == a.application_config,
            res.contact_email == a.contact_email,
            res.is_active == a.is_active,
            res.created_at == a.created_at,
            res.updated_at == a.updated_at,
    {
        CleanAppOrgByClientId {
            client_id: a.client_id,
            application_id: a.application_id,
            organization_id: a.organization_id,
            organization_name: a.organization_name,
            organization_slug: a.organization_slug,
            application_name: a.application_name,
            application_description: a.application_description,
            application_config: a.application_config,
            contact_email: a.contact_email,
            is_active: a.is_active,
            created_at: a.created_at,
            updated_at: a.updated_at,
        }
    }
}

impl vstd::std_specs::convert::FromSpecImpl<AppOrgByClientId> for CleanAppOrgByClientId {
    open spec fn obeys_from_spec() -> bool {
        true
    }

    open spec fn from_spec(a: AppOrgByClientId) -> CleanAppOrgByClientId {
        clean_apporg(a)
    }
}

/// The rules an application imposes on the users it registers.
#[derive(Debug, Clone, Copy)]
pub struct AppConfig {
    pub is_must_name_unique: bool,
    pub can_allow_email_nullable: bool,
}

/// A request to register a user.
#[derive(Debug)]
pub struct CreateUser {
    pub username: String,
    pub email: Option<String>,
    pub password: String,
}

/// A registered user as answered to the client.
#[derive(Debug)]
pub struct CreatedUser {
    pub user_id: u128,
    pub username: String,
    pub email: Option<String>,
}

/// An optional text, taken by its view.
pub open spec fn opt_view(s: Option<String>) -> Option<Seq<char>> {
    match s {
        Some(t) => Some(t@),
        None => None,
    }
}

/// A copy of an optional text.
pub fn clone_opt_string(s: &Option<String>) -> (res: Option<String>)
    ensures
        res == *s,
{
    match s {
        Some(t) => Some(t.clone()),
        None => None,
    }
}

/// A user of an application.
#[derive(Debug)]
pub struct User {
    pub user_id: u128,
    pub organization_id: u128,
    pub application_id: u128,
    pub username: String,
    pub email: Option<String>,
    pub hashed_password: String,
    pub created_at: i64,
    pub updated_at: i64,
    pub is_active: bool,
    pub is_verified: bool,
    pub is_locked: bool,
    pub last_login: Option<i64>,
    pub mfa_enabled: bool,
    pub deactivated_at: Option<i64>,
}

/// An organization.
#[derive(Debug)]
pub struct Organization {
    pub organization_id: u128,
    pub name: String,
    pub slug: String,
    pub contact_email: String,
    pub is_active: bool,
    pub created_at: i64,
    pub updated_at: i64,
}

/// An application of an organization, with its encrypted client secret and
/// its configuration text.
#[derive(Debug)]
pub struct Application {
    pub organization_id: u128,
    pub application_id: u128,
    pub name: String,
    pub description: String,
    pub client_id: u128,
    pub encrypted_client_secret: String,
    pub config: String,
    pub created_at: i64,
    pub updated_at: i64,
}

/// The membership of a user in an organization.
#[derive(Debug)]
pub struct UserOrganization {
    pub user_id: u128,
    pub organization_id: u128,
    pub role: String,
    pub username: String,
    pub user_email: Option<String>,
    pub organization_name: String,
    pub organization_slug: String,
    pub contact_email: String,
    pub joined_at: i64,
}

/// A refresh token: its id, owner, encrypted secret and version chain.
#[derive(Debug)]
pub struct RefreshToken {
    pub token_id: u128,
    pub application_id: u128,
    pub organization_id: u128,
    pub user_id: u128,
    pub encrypted_token_secret: String,
    pub token_version: String,
    pub parent_version: Option<String>,
    pub issued_at: i64,
    pub expires_at: i64,
    pub revoked: bool,
}

} // verus!
