//! Credential and session-lifecycle core of an authentication service:
//! password hashing, signed session tokens, one-time verification tokens on
//! a user repository, request authentication and role checks, and the
//! decisions of the account endpoints.
pub mod config;
pub mod credential;
pub mod dtos;
pub mod error;
pub mod handlers;
pub mod hex;
pub mod middleware;
pub mod session;
pub mod store;
pub mod user;
