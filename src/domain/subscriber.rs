mod email;
mod name;

use vstd::prelude::*;
use vstd::string::*;

use crate::domain::ValidationError;
use crate::routes::FormData;

pub use email::{email_valid, is_address, SubscriberEmail};
pub use name::{
    grapheme_count, has_forbidden, is_blank, is_forbidden, is_white_space,
    lemma_valid_text_is_accepted, name_verdict,
    SubscriberName, MAX_NAME_GRAPHEMES,
};

verus! {

/// A subscriber whose name and address have both been validated.
pub struct Subscriber {
    pub email: SubscriberEmail,
    pub name: SubscriberName,
}

/// The outcome of turning raw form fields into a subscriber: the address is
/// checked first, so its error wins when both fields are bad.
pub open spec fn subscriber_verdict(email: Seq<char>, name: Seq<char>) -> Result<(), ValidationError> {
    if !is_address(email) {
        Err(ValidationError::InvalidFormat)
    } else {
        name_verdict(name, grapheme_count(name))
    }
}

impl Subscriber {
    /// Validates both fields of `form`; no subscriber exists unless both pass.
    pub fn try_from(form: FormData) -> (r: Result<Subscriber, ValidationError>)
        ensures
            match subscriber_verdict(form.email@, form.name@) {
                Ok(_) => r is Ok && r->Ok_0.email@ == form.email@ && r->Ok_0.name@ == form.name@,
                Err(e) => r == Err::<Subscriber, ValidationError>(e),
            },
    {
        let email = match SubscriberEmail::parse(form.email) {
            Ok(email) => email,
            Err(e) => return Err(e),
        };
        let name = match SubscriberName::parse(form.name) {
            Ok(name) => name,
            Err(e) => return Err(e),
        };
        Ok(Subscriber { email, name })
    }

    /// The subscriber as `name <address>`.
    pub fn describe(&self) -> (r: String)
        ensures
            r@ == self.name@ + " <"@ + self.email@ + ">"@,
    {
        let mut text = String::from_str(self.name.as_str());
        text.append(" <");
        text.append(self.email.as_str());
        text.append(">");
        text
    }
}

} // verus!
