//! A small key/value and user store on SQLite, reached through an explicitly
//! passed handle.

pub mod sqlite_c;
pub mod users_po;
