//! Authentication core of a customer-facing reporting backend: roles, signed
//! session tokens, the request guards and the login flow, each with a
//! machine-checked contract.

pub mod text;
pub mod roles;
pub mod errors;
pub mod clock;
pub mod claims;
pub mod jwt;
pub mod user;
pub mod guard;
pub mod login;
pub mod config;
pub mod customers;
