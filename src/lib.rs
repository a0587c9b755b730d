//! An in-memory blogging backend: users, blogs, comments and likes kept in
//! keyed tables, the create/get/update/delete operations on them, and the
//! request handlers that turn each outcome into an HTTP status and a uniform
//! response envelope.
pub mod api_response;
pub mod error_handler;
pub mod ids;
pub mod laws;
pub mod models;
pub mod orm;
pub mod routes;
pub mod store;
pub mod table;
