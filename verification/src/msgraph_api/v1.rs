//! Version 1.0 of the directory API.

pub mod client;
pub mod me;
pub mod resources;
pub mod users;
