//! A todo list kept by a small REST service and shown by a browser client.
//!
//! The crate holds the rules of both sides as verified code: the records and
//! their invariants, the request handlers over a model of the two tables, and
//! the state that the client's screens keep between events.
pub mod text;
pub mod ident;
pub mod clock;
pub mod models;
pub mod errors;
pub mod db;
pub mod handlers;
pub mod client;
