//! Identity and test-telemetry persistence core of a CI test-reporting
//! platform: how credentials are salted and hashed, which tables tie a
//! principal to what it owns, and how the first administrative principal is
//! provisioned against a datastore that has been validated first.
//!
//! The library decides and computes; it opens no datastore. A caller opens
//! and probes the datastore, applies the statements of the migration and
//! inserts the row of a new user, and tells the library how each step ended.

pub mod cascade;
pub mod connection;
pub mod credentials;
pub mod datastore;
pub mod entities;
pub mod error;
pub mod migration;
pub mod model;
pub mod provision;
pub mod schema;
pub mod store;
