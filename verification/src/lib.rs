//! User accounts behind a versioned REST surface.
//!
//! The library decides everything about the user resource that can be decided
//! without touching the network or the database: which statement a request
//! asks of the store, how a password is kept at rest, how identifiers are
//! made and written, what a response carries, and which verb on which path
//! reaches which handler.

pub mod body;
pub mod error;
pub mod identifier;
pub mod models;
pub mod password;
pub mod repository;
pub mod router;
pub mod routes;
