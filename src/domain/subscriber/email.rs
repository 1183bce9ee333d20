use vstd::prelude::*;

use crate::domain::ValidationError;

verus! {

/// Whether `s` is a well-formed email address by the standard grammar.
pub uninterp spec fn email_valid(s: Seq<char>) -> bool;

/// A well-formed address: it holds an `@` and passes the standard grammar.
pub open spec fn is_address(s: Seq<char>) -> bool {
    s.contains('@') && email_valid(s)
}

/// Relies on validator's `validate_email`: a verdict on the text alone, which
/// is false for a text without an `@`.
#[verifier::external_body]
fn validate_address(s: &str) -> (r: bool)
    ensures
        r == email_valid(s@),
        r ==> s@.contains('@'),
{
    validator::validate_email(s)
}

/// A well-formed email address.
pub struct SubscriberEmail(String);

impl View for SubscriberEmail {
    type V = Seq<char>;

    closed spec fn view(&self) -> Seq<char> {
        self.0@
    }
}

impl SubscriberEmail {
    #[verifier::type_invariant]
    spec fn well_formed(self) -> bool {
        is_address(self.0@)
    }

    /// Accepts `s` unchanged as an address, or refuses it as malformed.
    pub fn parse(s: String) -> (r: Result<SubscriberEmail, ValidationError>)
        ensures
            is_address(s@) ==> r is Ok && r->Ok_0@ == s@,
            !is_address(s@) ==> r == Err::<SubscriberEmail, ValidationError>(
                ValidationError::InvalidFormat,
            ),
    {
        if validate_address(s.as_str()) {
            Ok(SubscriberEmail(s))
        } else {
            Err(ValidationError::InvalidFormat)
        }
    }

    /// The validated address.
    pub fn as_str(&self) -> (r: &str)
        ensures
            r@ == self@,
            is_address(r@),
    {
        proof {
            use_type_invariant(self);
        }
        self.0.as_str()
    }
}

} // verus!
