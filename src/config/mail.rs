use vstd::prelude::*;

use crate::config::SecretText;
use crate::domain::subscriber::is_address;
use crate::domain::{SubscriberEmail, ValidationError};

verus! {

/// How to reach the mail provider.
pub struct Config {
    pub auth_token: SecretText,
    pub base_url: String,
    pub sender: String,
    /// Bound on a whole request, connect to last byte, in milliseconds.
    pub timeout_millis: u64,
}

impl Config {
    /// The configured sender, validated as an address.
    pub fn sender(&self) -> (r: Result<SubscriberEmail, ValidationError>)
        ensures
            is_address(self.sender@) ==> r is Ok && r->Ok_0@ == self.sender@,
            !is_address(self.sender@) ==> r == Err::<SubscriberEmail, ValidationError>(
                ValidationError::InvalidFormat,
            ),
    {
        SubscriberEmail::parse(self.sender.clone())
    }
}

} // verus!
