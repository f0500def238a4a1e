//! Dynamic DNS and certificate upkeep for domains hosted at Porkbun.
//!
//! The library holds the decisions: which DNS A records to create, update or
//! delete so that a domain's subdomains point at the current public address,
//! when a locally stored certificate must be renewed and how long to wait
//! otherwise, and where a downloaded certificate bundle is written. Network
//! and file access are left to the caller.
pub mod bundle;
pub mod certificate;
pub mod client;
pub mod config;
pub mod monitor;
pub mod reconcile;
pub mod requests;
pub mod responses;
