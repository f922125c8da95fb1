//! Sign-in flows against a multi-tenant OAuth2 identity provider and a
//! walker for the cursor-paginated collections of a directory API.
//!
//! Nothing in this crate touches the network. Every exchange with a server is
//! described as a request value that the caller sends, and every decision is
//! a function from the current state and the server's reply to the next state.

pub mod auth;
pub mod constants;
pub mod errors;
pub mod helpers;
pub mod msgraph_api;
pub mod text;
pub mod web;
pub mod wire;
