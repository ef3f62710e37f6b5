//! The role rows: roles of an application, their assignments to users, and
//! the two views by user and by role.
use std::collections::HashSet;
use vstd::prelude::*;

verus! {

/// A role of an application with its permissions.
#[derive(Debug)]
pub struct RoleModel {
    pub organization_id: u128,
    pub application_id: u128,
    pub role_id: u128,
    pub name: String,
    pub description: String,
    pub permissions: HashSet<String>,
    pub created_at: i64,
    pub updated_at: i64,
}

/// The assignment of a role to a user.
#[derive(Debug)]
pub struct RoleAssignmentModel {
    pub organization_id: u128,
    pub application_id: u128,
    pub role_id: u128,
    pub user_id: u128,
    pub assigned_at: i64,
}

/// A role of a user, as listed by user.
#[derive(Debug)]
pub struct UserRoleModel {
    pub role_id: u128,
    pub role_name: String,
    pub role_description: String,
    pub role_permissions: HashSet<String>,
    pub assigned_at: i64,
}

/// A user of a role, as listed by role.
#[derive(Debug)]
pub struct RoleUserModel {
    pub user_id: u128,
    pub user_name: String,
    pub user_email: String,
    pub assigned_at: i64,
}

/// A role found by id.
#[derive(Debug)]
pub struct SelectedRoleByIdModel {
    pub name: String,
    pub description: String,
    pub permissions: HashSet<String>,
    pub created_at: i64,
    pub updated_at: i64,
}

} // verus!
