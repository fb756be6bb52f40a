//! The request handlers of the service, each a function on the tables.
pub mod auth;
pub mod todos;
