//! The organization rows.
use crate::domain::Organization;
use crate::models::mapper::ModelMapper;
use vstd::prelude::*;

verus! {

/// An organization as stored.
#[derive(Debug)]
pub struct OrganizationModel {
    pub organization_id: u128,
    pub name: String,
    pub slug: String,
    pub contact_email: String,
    pub is_active: bool,
    pub created_at: i64,
    pub updated_at: i64,
}

impl ModelMapper<Organization> for OrganizationModel {
    open spec fn model_of(e: Organization) -> OrganizationModel {
        OrganizationModel {
            organization_id: e.organization_id,
            name: e.name,
            slug: e.slug,
            contact_email: e.contact_email,
            is_active: e.is_active,
            created_at: e.created_at,
            updated_at: e.updated_at,
        }
    }

    open spec fn entity_of(m: OrganizationModel) -> Organization {
        Organization {
            organization_id: m.organization_id,
            name: m.name,
            slug: m.slug,
            contact_email: m.contact_email,
            is_active: m.is_active,
            created_at: m.created_at,
            updated_at: m.updated_at,
        }
    }

    fn from_entity(entity: Organization) -> (res: Self) {
        OrganizationModel {
            name: entity.name,
            slug: entity.slug,
            contact_email: entity.contact_email,
            is_active: entity.is_active,
            organization_id: entity.organization_id,
            created_at: entity.created_at,
            updated_at: entity.updated_at,
        }
    }

    fn to_entity(&self) -> (res: Organization) {
        Organization {
            name: self.name.clone(),
            slug: self.slug.clone(),
            contact_email: self.contact_email.clone(),
            is_active: self.is_active,
            organization_id: self.organization_id,
            created_at: self.created_at,
            updated_at: self.updated_at,
        }
    }
}

/// An organization and its row map to each other without loss.
pub proof fn law_organization_model_round_trip(e: Organization, m: OrganizationModel)
    ensures
        OrganizationModel::entity_of(OrganizationModel::model_of(e)) == e,
        OrganizationModel::model_of(OrganizationModel::entity_of(m)) == m,
{
}

} // verus!
