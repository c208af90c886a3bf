//! Account core of a small web service: registration checks, password hashing,
//! signed session tokens, and the decisions behind each account operation.

pub mod credentials;
pub mod errors;
pub mod service;
pub mod token;
pub mod user;
pub mod validation;
