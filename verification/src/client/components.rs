//! What the parts of a page decide before they are drawn.
pub mod auth_context;
pub mod layout;
pub mod todo_form;
pub mod todo_item;
