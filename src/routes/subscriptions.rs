use vstd::prelude::*;
use vstd::string::*;

use crate::domain::subscriber::subscriber_verdict;
use crate::domain::{Subscriber, ValidationError};

verus! {

/// The raw fields of a subscription form.
pub struct FormData {
    pub email: String,
    pub name: String,
}

/// How a subscription request ended.
#[derive(Debug, Clone, Copy, PartialEq, Eq, Structural)]
pub enum IngestionOutcome {
    /// The subscriber was validated and stored.
    Accepted,
    /// The form did not hold a valid subscriber; nothing was stored.
    Rejected,
    /// The subscriber was valid but the store refused the write.
    StorageFailed,
}

/// One row of the subscription store.
pub struct NewSubscription {
    /// A fresh unique identifier, as the 128 bits of a UUID.
    pub id: u128,
    pub email: String,
    pub name: String,
    /// When the request was accepted, in microseconds since the Unix epoch.
    pub subscribed_at: i64,
}

/// First step of a request: validate the form. `Rejected` means that nothing is
/// to be stored.
pub fn subscribe(form: FormData) -> (r: Result<Subscriber, IngestionOutcome>)
    ensures
        subscriber_verdict(form.email@, form.name@) is Ok <==> r is Ok,
        r is Ok ==> r->Ok_0.email@ == form.email@ && r->Ok_0.name@ == form.name@,
        r is Err ==> r == Err::<Subscriber, IngestionOutcome>(IngestionOutcome::Rejected),
{
    match Subscriber::try_from(form) {
        Ok(subscriber) => Ok(subscriber),
        Err(_) => Err(IngestionOutcome::Rejected),
    }
}

/// The row to insert for `subscriber`, with the identifier and time that the
/// caller drew.
pub fn subscription_record(subscriber: &Subscriber, id: u128, subscribed_at: i64) -> (r:
    NewSubscription)
    ensures
        r.id == id,
        r.email@ == subscriber.email@,
        r.name@ == subscriber.name@,
        r.subscribed_at == subscribed_at,
{
    NewSubscription {
        id,
        email: String::from_str(subscriber.email.as_str()),
        name: String::from_str(subscriber.name.as_str()),
        subscribed_at,
    }
}

/// Second step of a request: the outcome once the store has answered.
pub fn stored(write_succeeded: bool) -> (r: IngestionOutcome)
    ensures
        r == (if write_succeeded { IngestionOutcome::Accepted } else { IngestionOutcome::StorageFailed }),
{
    if write_succeeded {
        IngestionOutcome::Accepted
    } else {
        IngestionOutcome::StorageFailed
    }
}

/// The HTTP status that answers a request with this outcome.
pub fn status_code(outcome: IngestionOutcome) -> (r: u16)
    ensures
        r == match outcome {
            IngestionOutcome::Accepted => 200u16,
            IngestionOutcome::Rejected => 400u16,
            IngestionOutcome::StorageFailed => 500u16,
        },
{
    match outcome {
        IngestionOutcome::Accepted => 200,
        IngestionOutcome::Rejected => 400,
        IngestionOutcome::StorageFailed => 500,
    }
}

/// A form whose address or name is empty never yields a subscriber, so such a
/// request is rejected and nothing is stored.
pub proof fn lemma_empty_field_rejected(email: Seq<char>, name: Seq<char>)
    requires
        email.len() == 0 || name.len() == 0,
    ensures
        subscriber_verdict(email, name) is Err,
{
}

} // verus!
