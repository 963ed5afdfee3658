//! Entitlement validation and metering: the rules that decide whether an
//! entitlement may be used, how much of its quota remains, and how requests
//! are admitted, cached and settled against the ledger.

pub mod backend;
pub mod cache;
pub mod clock;
pub mod config;
pub mod entitlement;
mod keyed;
pub mod error;
pub mod ledger;
pub mod rate_limit;
pub mod service;
pub mod settings;
