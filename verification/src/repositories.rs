//! Repositories: the adapters that the services use.
pub mod validate_bearer_auth_repository;
pub mod hello_repository;
pub mod initial_core;
pub mod queue;
pub mod paseto;
pub mod user_repositories;
pub mod user_repository;
pub mod database;
