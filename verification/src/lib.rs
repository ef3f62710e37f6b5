//! Verified core of the Axcelium identity service: credential tokens,
//! cipher and hashing adapters, user rules, models and the decision
//! steps of the service's workflows.
pub mod domain;
pub mod errors;
pub mod ids;
pub mod text;
pub mod cipher;
pub mod repositories;
pub mod services;
pub mod models;
pub mod rule_checker;
pub mod security;
pub mod cache;
pub mod config;
pub mod init_application;
