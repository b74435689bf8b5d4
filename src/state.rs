//! Plain values shared by the server: configuration, token claims and push
//! messages.
use vstd::prelude::*;

verus! {

/// A message pushed to a client.
#[derive(Clone, Debug)]
pub enum WebSocketMessage {
    Text(String),
    Binary(Vec<u8>),
}

/// The server's configuration, as loaded at start-up.
#[derive(Clone, Debug)]
pub struct Config {
    pub database_url: String,
    pub database_name: String,
    pub jwt_secret: String,
    pub server_address: String,
    pub cors_origins: Vec<String>,
    pub gcs_bucket_name: String,
    pub gcs_project_id: String,
    pub google_application_credentials: Option<String>,
}

/// The claims of an access token: its subject (a user id in hex), expiry and
/// issue time in seconds since the Unix epoch, and roles.
#[derive(Clone, Debug)]
pub struct Claims {
    pub sub: String,
    pub exp: i64,
    pub iat: i64,
    pub roles: Vec<String>,
}

/// How long an access token stays valid, in seconds: one day.
pub const TOKEN_LIFETIME_SECS: i64 = 86400;

impl Claims {
    /// The claims of a token issued at `now` for the user whose hex id is
    /// `sub`, valid for one day, with the single role `user`.
    pub fn issue(sub: String, now: i64) -> (r: Claims)
        requires
            now <= i64::MAX - TOKEN_LIFETIME_SECS,
        ensures
            r.sub == sub,
            r.iat == now,
            r.exp == now + TOKEN_LIFETIME_SECS,
            r.roles@.len() == 1,
            r.roles@[0]@ == "user"@,
    {
        let mut roles: Vec<String> = Vec::new();
        roles.push(String::from_str("user"));
        Claims { sub, exp: now + TOKEN_LIFETIME_SECS, iat: now, roles }
    }
}

} // verus!
