use vstd::prelude::*;

use crate::config::SecretText;

verus! {

/// How strictly the connection to the store asks for TLS.
#[derive(Debug, Clone, Copy, PartialEq, Eq, Structural)]
pub enum SslMode {
    /// Refuse to connect without TLS.
    Require,
    /// Use TLS when the server offers it.
    Prefer,
}

/// Where and how to reach the relational store.
pub struct Config {
    pub name: String,
    pub host: String,
    pub port: u16,
    pub username: String,
    pub password: SecretText,
    pub require_ssl: bool,
}

impl Config {
    /// The TLS policy of the connection.
    pub fn ssl_mode(&self) -> (r: SslMode)
        ensures
            r == (if self.require_ssl { SslMode::Require } else { SslMode::Prefer }),
    {
        if self.require_ssl {
            SslMode::Require
        } else {
            SslMode::Prefer
        }
    }
}

} // verus!
