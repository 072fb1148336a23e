//! Process-wide configuration. It is assembled once at startup from values
//! read out-of-band (environment, dotenv file) and is immutable afterwards;
//! in particular the signing secret is set once and only read thereafter.

use vstd::prelude::*;

verus! {

/// The port a server listens on when none is configured.
pub const DEFAULT_SERVER_PORT: u16 = 8080;

pub struct Config {
    pub database_url: String,
    pub jwt_secret: String,
    pub server_port: u16,
}

impl Config {
    /// Assembles the configuration from values already read from the
    /// environment. A missing port falls back to `DEFAULT_SERVER_PORT`.
    pub fn new(database_url: String, jwt_secret: String, server_port: Option<u16>) -> (c: Config)
        ensures
            c.database_url == database_url,
            c.jwt_secret == jwt_secret,
            c.server_port == (match server_port {
                Some(p) => p,
                None => DEFAULT_SERVER_PORT,
            }),
    {
        let port = match server_port {
            Some(p) => p,
            None => DEFAULT_SERVER_PORT,
        };
        Config { database_url, jwt_secret, server_port: port }
    }
}

} // verus!
