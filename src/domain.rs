//! Value objects built from untrusted subscriber input.

use vstd::prelude::*;

pub mod subscriber;

pub use subscriber::{Subscriber, SubscriberEmail, SubscriberName};

verus! {

/// Why a piece of subscriber input was refused.
#[derive(Debug, Clone, Copy, PartialEq, Eq, Structural)]
pub enum ValidationError {
    /// The text is empty or holds only whitespace.
    Empty,
    /// The text holds more grapheme clusters than allowed.
    TooLong,
    /// The text holds a character that is never allowed.
    ForbiddenCharacter,
    /// The text is not a well-formed email address.
    InvalidFormat,
}

} // verus!
