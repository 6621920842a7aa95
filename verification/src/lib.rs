//! Verified core of a User resource service: the record model, the five
//! resource operations over a relational-style row store, the error
//! taxonomy with its transport status mapping, and connection-descriptor
//! redaction. I/O plumbing (routing, the database driver, process
//! bootstrap) lives outside this crate.

pub mod error;
mod gen;
pub mod laws;
pub mod models;
pub mod redact;
pub mod store;
