//! What the library knows of the file store: the record it keeps per file
//! and the settings applied to each connection.

pub mod database;
pub mod file_repository;
