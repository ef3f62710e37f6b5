//! The queue: the producer's topic and what the user consumer does with
//! each message.
pub mod consumer_users_repository;
pub mod producer;
