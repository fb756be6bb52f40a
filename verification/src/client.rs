//! The state that the browser client keeps, and what it decides on each event.
pub mod models;
pub mod utils;
pub mod route;
pub mod components;
pub mod pages;
