use vstd::prelude::*;
use vstd::string::*;

use crate::config::ConfigError;

verus! {

/// The deployment tier whose settings file is layered over the base file.
#[derive(Debug, Clone, Copy, PartialEq, Eq, Structural)]
pub enum Environment {
    Local,
    Production,
}

/// The lower-case form of `s` by the Unicode case mapping.
pub uninterp spec fn lowercase_of(s: Seq<char>) -> Seq<char>;

/// Relies on `str::to_lowercase`: the result depends on the characters alone.
#[verifier::external_body]
fn to_lowercase(s: &str) -> (r: String)
    ensures
        r@ == lowercase_of(s@),
{
    s.to_lowercase()
}

/// The tier named by an already lower-cased text.
pub open spec fn tier_of(s: Seq<char>) -> Result<Environment, ConfigError> {
    if s == "local"@ {
        Ok(Environment::Local)
    } else if s == "production"@ {
        Ok(Environment::Production)
    } else {
        Err(ConfigError::UnknownEnvironment)
    }
}

fn same_text(a: &str, b: &str) -> (r: bool)
    ensures
        r == (a@ == b@),
{
    let n = a.unicode_len();
    if n != b.unicode_len() {
        return false;
    }
    let mut i: usize = 0;
    while i < n
        invariant
            n == a@.len(),
            n == b@.len(),
            i <= n,
            forall|j: int| 0 <= j < i ==> a@[j] == b@[j],
        decreases n - i,
    {
        if a.get_char(i) != b.get_char(i) {
            return false;
        }
        i += 1;
    }
    assert(a@ =~= b@);
    true
}

impl Environment {
    /// The tier's name, which also names its settings file.
    pub open spec fn name(self) -> Seq<char> {
        match self {
            Environment::Local => "local"@,
            Environment::Production => "production"@,
        }
    }

    pub fn as_str(&self) -> (r: &'static str)
        ensures
            r@ == self.name(),
    {
        match self {
            Environment::Local => "local",
            Environment::Production => "production",
        }
    }

    /// Reads a tier name that is already in lower case.
    pub fn from_lowercase(s: &str) -> (r: Result<Environment, ConfigError>)
        ensures
            r == tier_of(s@),
    {
        if same_text(s, "local") {
            Ok(Environment::Local)
        } else if same_text(s, "production") {
            Ok(Environment::Production)
        } else {
            Err(ConfigError::UnknownEnvironment)
        }
    }

    /// Reads a tier name in any letter case.
    pub fn parse(s: &str) -> (r: Result<Environment, ConfigError>)
        ensures
            r == tier_of(lowercase_of(s@)),
    {
        let lowered = to_lowercase(s);
        Environment::from_lowercase(lowered.as_str())
    }

    /// The tier named by the environment, or the local tier when none is named.
    pub fn select(named: Option<String>) -> (r: Result<Environment, ConfigError>)
        ensures
            named is None ==> r == Ok::<Environment, ConfigError>(Environment::Local),
            named is Some ==> r == tier_of(lowercase_of(named->Some_0@)),
    {
        match named {
            None => Ok(Environment::Local),
            Some(s) => Environment::parse(s.as_str()),
        }
    }

    /// The name of the tier's settings file.
    pub fn file_name(&self) -> (r: String)
        ensures
            r@ == self.name() + ".yaml"@,
    {
        let name = String::from_str(self.as_str());
        name.concat(".yaml")
    }
}

} // verus!
