//! The service's settings, read once at start-up and shared read-only.
use vstd::prelude::*;

verus! {

#[derive(Debug)]
pub struct Config {
    pub database_url: String,
    pub server_port: u16,
    /// The symmetric key that signs session tokens.
    pub jwt_secret: String,
    /// How long a session lasts, in minutes.
    pub jwt_maxage: i64,
}

} // verus!
