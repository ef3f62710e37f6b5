//! The rows of users' memberships in organizations.
use crate::domain::{clone_opt_string, UserOrganization};
use crate::models::mapper::ModelMapper;
use vstd::prelude::*;

verus! {

/// A membership as stored.
#[derive(Debug)]
pub struct UserOrganizationModel {
    pub user_id: u128,
    pub organization_id: u128,
    pub role: String,
    pub username: String,
    pub user_email: Option<String>,
    pub organization_name: String,
    pub organization_slug: String,
    pub contact_email: String,
    pub joined_at: i64,
}

impl ModelMapper<UserOrganization> for UserOrganizationModel {
    open spec fn model_of(e: UserOrganization) -> UserOrganizationModel {
        UserOrganizationModel {
            user_id: e.user_id,
            organization_id: e.organization_id,
            role: e.role,
            username: e.username,
            user_email: e.user_email,
            organization_name: e.organization_name,
            organization_slug: e.organization_slug,
            contact_email: e.contact_email,
            joined_at: e.joined_at,
        }
    }

    open spec fn entity_of(m: UserOrganizationModel) -> UserOrganization {
        UserOrganization {
            user_id: m.user_id,
            organization_id: m.organization_id,
            role: m.role,
            username: m.username,
            user_email: m.user_email,
            organization_name: m.organization_name,
            organization_slug: m.organization_slug,
            contact_email: m.contact_email,
            joined_at: m.joined_at,
        }
    }

    fn from_entity(entity: UserOrganization) -> (res: Self) {
        UserOrganizationModel {
            user_id: entity.user_id,
            organization_id: entity.organization_id,
            role: entity.role,
            username: entity.username,
            user_email: entity.user_email,
            organization_name: entity.organization_name,
            organization_slug: entity.organization_slug,
            contact_email: entity.contact_email,
            joined_at: entity.joined_at,
        }
    }

    fn to_entity(&self) -> (res: UserOrganization) {
        UserOrganization {
            user_id: self.user_id,
            organization_id: self.organization_id,
            role: self.role.clone(),
            username: self.username.clone(),
            user_email: clone_opt_string(&self.user_email),
            organization_name: self.organization_name.clone(),
            organization_slug: self.organization_slug.clone(),
            contact_email: self.contact_email.clone(),
            joined_at: self.joined_at,
        }
    }
}

/// A membership and its row map to each other without loss.
pub proof fn law_user_organization_model_round_trip(e: UserOrganization, m: UserOrganizationModel)
    ensures
        UserOrganizationModel::entity_of(UserOrganizationModel::model_of(e)) == e,
        UserOrganizationModel::model_of(UserOrganizationModel::entity_of(m)) == m,
{
}

} // verus!
