use vstd::prelude::*;

use crate::token::TokenCodec;

verus! {

/// Lifetime of a session token, in seconds: one hour.
pub const SESSION_TTL_SECS: u64 = 3600;

/// Settings read once at start-up and shared read-only afterwards.
#[derive(Debug, Clone)]
pub struct Config {
    pub database_url: String,
    pub jwt_secret: String,
    pub jwt_expires_in: String,
    pub jwt_maxage: i32,
}

impl Config {
    /// The codec that signs with the configured secret; tokens live one hour.
    pub fn token_codec(&self) -> (r: TokenCodec)
        ensures
            r.secret_view() == self.jwt_secret@,
            r.ttl_spec() == SESSION_TTL_SECS,
    {
        TokenCodec::new(self.jwt_secret.as_str(), SESSION_TTL_SECS)
    }
}

} // verus!
