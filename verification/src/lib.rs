//! Identity-aware-proxy authentication: verification of signed assertions
//! against a rotating key set, and group membership with a bounded-age cache.

pub mod cache;
pub mod groups;
pub mod iap_verification;
pub mod jwt;
pub mod key_provider;
pub mod models;
pub mod table;
