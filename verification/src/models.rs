//! The rows and documents that the stores hold, and their mappings to the
//! domain entities.
pub mod application;
pub mod apporg_client_id;
pub mod mapper;
pub mod organization;
pub mod queue;
pub mod refresh_token;
pub mod role;
pub mod timestamp;
pub mod token_claim;
pub mod user;
pub mod user_organization;
