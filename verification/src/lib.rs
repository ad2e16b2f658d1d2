//! A verified core for a small player-management service.
//!
//! One entity, the player, lives in a single-table relational store and is
//! addressed from outside only by an opaque token.  This crate holds the
//! verified logic of the service: the table semantics of the six operations
//! (create, read, list, existence check, rename, delete), the parameterized
//! SQL statements they issue, the JSON bodies the HTTP layer answers with,
//! and the uniform translation of every failure into one error response.

pub mod app_error;
pub mod db;
pub mod http;
pub mod json;
pub mod laws;
pub mod player;
pub mod routes;
pub mod sql;
pub mod token;
