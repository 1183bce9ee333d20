use secrecy::{ExposeSecret, Secret};
use zero2prod::config::{mail, SecretText};
use zero2prod::domain::Subscriber;
use zero2prod::mail::{settle, Client, ConstructionError, DispatchError, SendOutcome};
use zero2prod::routes::FormData;

fn config(sender: &str) -> mail::Config {
    mail::Config {
        auth_token: SecretText(Secret::new("token-value".to_string())),
        base_url: "http://127.0.0.1:8080".to_string(),
        sender: sender.to_string(),
        timeout_millis: 200,
    }
}

fn recipient() -> Subscriber {
    Subscriber::try_from(FormData {
        email: "reader@mail.tld".to_string(),
        name: "Reader".to_string(),
    })
    .unwrap()
}

#[test]
fn a_client_needs_a_valid_sender() {
    assert_eq!(Client::new(config("not an address")).err(), Some(ConstructionError::InvalidSender));
    let client = Client::new(config("sender@mail.tld")).unwrap();
    assert_eq!(client.sender().as_str(), "sender@mail.tld");
    assert_eq!(client.timeout_millis(), 200);
    assert_eq!(client.auth_token().0.expose_secret(), "token-value");
}

#[test]
fn the_request_carries_all_five_fields() {
    let client = Client::new(config("sender@mail.tld")).unwrap();
    let request = client.request_for(&recipient(), "Hello", "<p>Hi</p>", "Hi");
    assert_eq!(request.from, "sender@mail.tld");
    assert_eq!(request.to, "reader@mail.tld");
    assert_eq!(request.subject, "Hello");
    assert_eq!(request.html_body, "<p>Hi</p>");
    assert_eq!(request.text_body, "Hi");
    assert_eq!(client.endpoint(), "http://127.0.0.1:8080/email");
}

#[test]
fn the_request_text_leaves_out_the_token() {
    let client = Client::new(config("sender@mail.tld")).unwrap();
    let text = client.request_for(&recipient(), "Hello", "<p>Hi</p>", "Hi").describe();
    assert_eq!(
        text,
        "EmailRequest:\nFrom:    sender@mail.tld\nTo:      reader@mail.tld\nSubject: Hello\nHTML Body:\n<p>Hi</p>\nText Body:\nHi\n"
    );
    assert!(!text.contains("token-value"));
}

#[test]
fn a_late_reply_is_a_timeout() {
    assert_eq!(settle(SendOutcome::TimedOut), Err(DispatchError::Timeout));
}

#[test]
fn an_error_status_is_a_remote_error() {
    assert_eq!(settle(SendOutcome::Responded(500)), Err(DispatchError::RemoteError));
    assert_eq!(settle(SendOutcome::Responded(404)), Err(DispatchError::RemoteError));
    assert_eq!(settle(SendOutcome::Responded(302)), Err(DispatchError::RemoteError));
}

#[test]
fn a_success_status_settles_the_send() {
    assert_eq!(settle(SendOutcome::Responded(200)), Ok(()));
    assert_eq!(settle(SendOutcome::Responded(299)), Ok(()));
    assert_eq!(settle(SendOutcome::TransportFailed), Err(DispatchError::TransportError));
}
