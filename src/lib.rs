//! Core of a multi-backend database driver: the backend witness traits, the
//! contracts for binding and reading values, the decoder for tagged-field
//! error and notice messages, type descriptors, and the decisions taken while
//! an embedded-engine connection is set up.

pub mod database;
pub mod error;
pub mod establish;
pub mod pg_error;
pub mod pg_types;
pub mod response;
pub mod sqlite;
pub mod statement_cache;
pub mod types;
