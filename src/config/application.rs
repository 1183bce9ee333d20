use vstd::prelude::*;

verus! {

/// Where the HTTP server listens.
pub struct Config {
    pub host: String,
    pub port: u16,
}

} // verus!
