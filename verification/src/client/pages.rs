//! What each page decides before it is drawn.
pub mod home;
pub mod login;
pub mod not_found;
pub mod todo_list;
