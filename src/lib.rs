//! Credential and token lifecycle: registration with hashed credentials,
//! session login and logout, and single-use, time-bounded tokens for email
//! verification and password reset.
pub mod error;
pub mod ledger;
pub mod models;
pub mod dto;
pub mod password;
pub mod config;
pub mod notify;
pub mod store;
pub mod session;
pub mod response;
pub mod service;
pub mod laws;
