//! Services: the workflows that the controllers call.
pub mod hello_service;
pub mod initial_core_service;
pub mod user_service;
pub mod validate_bearer_auth_service;
