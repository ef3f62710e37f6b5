//! The application rows.
use crate::domain::Application;
use crate::models::mapper::ModelMapper;
use vstd::prelude::*;

verus! {

/// An application as stored.
#[derive(Debug)]
pub struct AppcalitionModel {
    pub organization_id: u128,
    pub application_id: u128,
    pub name: String,
    pub description: String,
    pub client_id: u128,
    pub encrypted_client_secret: String,
    pub config: String,
    pub created_at: i64,
    pub updated_at: i64,
}

impl ModelMapper<Application> for AppcalitionModel {
    open spec fn model_of(e: Application) -> AppcalitionModel {
        AppcalitionModel {
            organization_id: e.organization_id,
            application_id: e.application_id,
            name: e.name,
            description: e.description,
            client_id: e.client_id,
            encrypted_client_secret: e.encrypted_client_secret,
            config: e.config,
            created_at: e.created_at,
            updated_at: e.updated_at,
        }
    }

    open spec fn entity_of(m: AppcalitionModel) -> Application {
        Application {
            organization_id: m.organization_id,
            application_id: m.application_id,
            name: m.name,
            description: m.description,
            client_id: m.client_id,
            encrypted_client_secret: m.encrypted_client_secret,
            config: m.config,
            created_at: m.created_at,
            updated_at: m.updated_at,
        }
    }

    fn from_entity(entity: Application) -> (res: Self) {
        AppcalitionModel {
            client_id: entity.client_id,
            name: entity.name,
            config: entity.config,
            description: entity.description,
            application_id: entity.application_id,
            organization_id: entity.organization_id,
            encrypted_client_secret: entity.encrypted_client_secret,
            created_at: entity.created_at,
            updated_at: entity.updated_at,
        }
    }

    fn to_entity(&self) -> (res: Application) {
        Application {
            client_id: self.client_id,
            name: self.name.clone(),
            config: self.config.clone(),
            description: self.description.clone(),
            application_id: self.application_id,
            organization_id: self.organization_id,
            encrypted_client_secret: self.encrypted_client_secret.clone(),
            created_at: self.created_at,
            updated_at: self.updated_at,
        }
    }
}

/// An application and its row map to each other without loss.
pub proof fn law_application_model_round_trip(e: Application, m: AppcalitionModel)
    ensures
        AppcalitionModel::entity_of(AppcalitionModel::model_of(e)) == e,
        AppcalitionModel::model_of(AppcalitionModel::entity_of(m)) == m,
{
}

} // verus!
