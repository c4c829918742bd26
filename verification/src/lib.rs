//! Custos: an intrusion detection library. Files are hashed with SHA-256,
//! the hashes are kept as hex text in a store, and a later scan reports
//! each file as new, unchanged or changed.

pub mod config;
pub mod coordinator;
pub mod db;
pub mod hexcodec;
pub mod reports;
pub mod strategies;
pub mod work;
