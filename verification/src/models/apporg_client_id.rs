//! The rows of applications with their organizations, by client id.
use crate::domain::AppOrgByClientId;
use crate::models::mapper::ModelMapper;
use vstd::prelude::*;

verus! {

/// An application with its organization, as stored by client id.
#[derive(Debug)]
pub struct AppOrgModel {
    pub client_id: u128,
    pub application_id: u128,
    pub organization_id: u128,
    pub organization_name: String,
    pub organization_slug: String,
    pub application_name: String,
    pub application_description: String,
    pub application_config: String,
    pub contact_email: String,
    pub is_active: bool,
    pub encrypted_client_secret: String,
    pub created_at: i64,
    pub updated_at: i64,
}

impl ModelMapper<AppOrgByClientId> for AppOrgModel {
    open spec fn model_of(e: AppOrgByClientId) -> AppOrgModel {
        AppOrgModel {
            client_id: e.client_id,
            application_id: e.application_id,
            organization_id: e.organization_id,
            organization_name: e.organization_name,
            organization_slug: e.organization_slug,
            application_name: e.application_name,
            application_description: e.application_description,
            application_config: e.application_config,
            contact_email: e.contact_email,
            is_active: e.is_active,
            encrypted_client_secret: e.encrypted_client_secret,
            created_at: e.created_at,
            updated_at: e.updated_at,
        }
    }

    open spec fn entity_of(m: AppOrgModel) -> AppOrgByClientId {
        AppOrgByClientId {
            client_id: m.client_id,
            application_id: m.application_id,
            organization_id: m.organization_id,
            organization_name: m.organization_name,
            organization_slug: m.organization_slug,
            application_name: m.application_name,
            application_description: m.application_description,
            application_config: m.application_config,
            contact_email: m.contact_email,
            is_active: m.is_active,
            encrypted_client_secret: m.encrypted_client_secret,
            created_at: m.created_at,
            updated_at: m.updated_at,
        }
    }

    fn from_entity(entity: AppOrgByClientId) -> (res: Self) {
        AppOrgModel {
            client_id: entity.client_id,
            application_id: entity.application_id,
            organization_id: entity.organization_id,
            organization_name: entity.organization_name,
            organization_slug: entity.organization_slug,
            application_name: entity.application_name,
            application_description: entity.application_description,
            application_config: entity.application_config,
            contact_email: entity.contact_email,
            encrypted_client_secret: entity.encrypted_client_secret,
            is_active: entity.is_active,
            created_at: entity.created_at,
            updated_at: entity.updated_at,
        }
    }

    fn to_entity(&self) -> (res: AppOrgByClientId) {
        AppOrgByClientId {
            client_id: self.client_id,
            application_id: self.application_id,
            organization_id: self.organization_id,
            organization_name: self.organization_name.clone(),
            organization_slug: self.organization_slug.clone(),
            application_name: self.application_name.clone(),
            application_description: self.application_description.clone(),
            application_config: self.application_config.clone(),
            contact_email: self.contact_email.clone(),
            encrypted_client_secret: self.encrypted_client_secret.clone(),
            is_active: self.is_active,
            created_at: self.created_at,
            updated_at: self.updated_at,
        }
    }
}

/// An application with its organization and its row map to each other
/// without loss.
pub proof fn law_apporg_model_round_trip(e: AppOrgByClientId, m: AppOrgModel)
    ensures
        AppOrgModel::entity_of(AppOrgModel::model_of(e)) == e,
        AppOrgModel::model_of(AppOrgModel::entity_of(m)) == m,
{
}

} // verus!
