//! Identity and access-control core: credential policy, password hashing,
//! signed tokens, role-based authorization, audit records and admission control.
pub mod audit;
pub mod auth_service;
pub mod claims_json;
pub mod config;
pub mod errors;
pub mod guard;
pub mod metrics;
pub mod password;
pub mod rate_limit;
pub mod text;
pub mod token;
pub mod user;
pub mod user_service;
pub mod validation;
pub mod value_objects;
