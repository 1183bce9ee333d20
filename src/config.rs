//! Typed settings: the values that the resolved configuration sources yield.

use vstd::prelude::*;

pub mod application;
pub mod database;
pub mod environment;
pub mod mail;

verus! {

/// A confidential text (a password, an access token). The library only moves
/// it from the settings to where it is used; it is exposed, through
/// secrecy's `ExposeSecret`, only by the code that sends it. Held opaque: the
/// `Zeroize` bound on `secrecy::Secret` keeps Verus from declaring that type.
#[verifier::external_body]
pub struct SecretText(pub secrecy::Secret<String>);

/// Why the configuration could not be resolved.
#[derive(Debug, Clone, Copy, PartialEq, Eq, Structural)]
pub enum ConfigError {
    /// The deployment tier named by the environment is not known.
    UnknownEnvironment,
}

/// The whole resolved configuration.
pub struct Config {
    pub application: application::Config,
    pub database: database::Config,
    pub mail: mail::Config,
}

} // verus!
