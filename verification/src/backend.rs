//! The marketplace backend's side: its settings, and what its handlers
//! decide from the answers of the validator and of the store.

pub mod auth;
pub mod config;
pub mod entitlements;
pub mod errors;
pub mod models;
pub mod services;
pub mod stats;
pub mod validator;
