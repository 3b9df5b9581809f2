//! Eager loading and cursor pagination for a small GraphQL user directory.
//!
//! The library decides which rows to load and how to assemble them into
//! nodes; the caller runs the queries against the database.
pub mod cursor;
pub mod eager;
pub mod models;
pub mod nodes;
pub mod pagination;
pub mod schema;
pub mod trail;
