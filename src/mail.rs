//! The mail-dispatch client: what it sends, where, and how a reply is judged.

use reqwest::Client as HttpClient;
use vstd::prelude::*;
use vstd::string::*;

use crate::config::{mail, SecretText};
use crate::domain::subscriber::is_address;
use crate::domain::{Subscriber, SubscriberEmail};

verus! {

/// Path of the provider's send endpoint, under its base URL.
pub const EMAIL_PATH: &'static str = "/email";

/// Header that carries the provider's access token.
pub const AUTH_TOKEN_HEADER: &'static str = "X-Provider-Auth-Token";

/// Why the client could not be built.
#[derive(Debug, Clone, Copy, PartialEq, Eq, Structural)]
pub enum ConstructionError {
    /// The configured sender is not a well-formed address.
    InvalidSender,
    /// The HTTP transport could not be set up.
    Transport,
}

/// reqwest's asynchronous HTTP client, carried opaque.
#[verifier::external_type_specification]
#[verifier::external_body]
pub struct ExHttpClient(HttpClient);

/// Relies on reqwest's `ClientBuilder::timeout` and `build`: a client whose
/// every request, from connecting to the end of the response body, is bounded
/// by the duration. `build` fails when the TLS backend or the system proxy
/// settings cannot be loaded, which depends on the machine.
#[verifier::external_body]
fn http_client_with_timeout(timeout_millis: u64) -> (r: Option<HttpClient>) {
    HttpClient::builder()
        .timeout(std::time::Duration::from_millis(timeout_millis))
        .build()
        .ok()
}

/// Why a send failed. There is no retry: each error reaches the caller.
#[derive(Debug, Clone, Copy, PartialEq, Eq, Structural)]
pub enum DispatchError {
    /// No complete reply came within the configured bound.
    Timeout,
    /// The provider replied with a status that is not a success.
    RemoteError,
    /// The request could not be carried out at all.
    TransportError,
}

/// What became of the one request of a send.
#[derive(Debug, Clone, Copy, PartialEq, Eq, Structural)]
pub enum SendOutcome {
    /// The bound on the whole request ran out.
    TimedOut,
    /// The connection failed before a reply was received.
    TransportFailed,
    /// A complete reply came, with this HTTP status.
    Responded(u16),
}

/// The result of a send given what became of its request: only a 2xx status counts
/// as success.
pub open spec fn dispatch_verdict(outcome: SendOutcome) -> Result<(), DispatchError> {
    match outcome {
        SendOutcome::TimedOut => Err(DispatchError::Timeout),
        SendOutcome::TransportFailed => Err(DispatchError::TransportError),
        SendOutcome::Responded(status) => if 200 <= status <= 299 {
            Ok(())
        } else {
            Err(DispatchError::RemoteError)
        },
    }
}

/// Judges what became of a request.
pub fn settle(outcome: SendOutcome) -> (r: Result<(), DispatchError>)
    ensures
        r == dispatch_verdict(outcome),
{
    match outcome {
        SendOutcome::TimedOut => Err(DispatchError::Timeout),
        SendOutcome::TransportFailed => Err(DispatchError::TransportError),
        SendOutcome::Responded(status) => if 200 <= status && status <= 299 {
            Ok(())
        } else {
            Err(DispatchError::RemoteError)
        },
    }
}

/// The payload of one send; it never holds the access token.
pub struct EmailRequest {
    pub from: String,
    pub to: String,
    pub subject: String,
    pub html_body: String,
    pub text_body: String,
}

/// The diagnostic text of a payload with these fields.
pub open spec fn request_text(
    from: Seq<char>,
    to: Seq<char>,
    subject: Seq<char>,
    html_body: Seq<char>,
    text_body: Seq<char>,
) -> Seq<char> {
    "EmailRequest:\nFrom:    "@ + from + "\nTo:      "@ + to + "\nSubject: "@ + subject
        + "\nHTML Body:\n"@ + html_body + "\nText Body:\n"@ + text_body + "\n"@
}

impl EmailRequest {
    /// A text for logs: the five fields, and nothing else.
    pub fn describe(&self) -> (r: String)
        ensures
            r@ == request_text(
                self.from@,
                self.to@,
                self.subject@,
                self.html_body@,
                self.text_body@,
            ),
    {
        let mut text = String::from_str("EmailRequest:\nFrom:    ");
        text.append(self.from.as_str());
        text.append("\nTo:      ");
        text.append(self.to.as_str());
        text.append("\nSubject: ");
        text.append(self.subject.as_str());
        text.append("\nHTML Body:\n");
        text.append(self.html_body.as_str());
        text.append("\nText Body:\n");
        text.append(self.text_body.as_str());
        text.append("\n");
        text
    }
}

/// A client bound to one provider and one validated sender.
pub struct Client {
    auth_token: SecretText,
    http_client: HttpClient,
    base_url: String,
    sender: SubscriberEmail,
    timeout_millis: u64,
}

impl Client {
    pub closed spec fn spec_auth_token(&self) -> SecretText {
        self.auth_token
    }

    pub closed spec fn spec_base_url(&self) -> Seq<char> {
        self.base_url@
    }

    pub closed spec fn spec_sender(&self) -> Seq<char> {
        self.sender@
    }

    pub closed spec fn spec_timeout_millis(&self) -> u64 {
        self.timeout_millis
    }

    /// Builds a client from the mail settings; fails when the sender is not a
    /// well-formed address, or else when the transport cannot be set up.
    pub fn new(config: mail::Config) -> (r: Result<Client, ConstructionError>)
        ensures
            r is Ok ==> is_address(config.sender@),
            !is_address(config.sender@) ==> r == Err::<Client, ConstructionError>(
                ConstructionError::InvalidSender,
            ),
            is_address(config.sender@) && r is Err ==> r == Err::<Client, ConstructionError>(
                ConstructionError::Transport,
            ),
            r is Ok ==> {
                let c = r->Ok_0;
                &&& c.spec_sender() == config.sender@
                &&& c.spec_base_url() == config.base_url@
                &&& c.spec_auth_token() == config.auth_token
                &&& c.spec_timeout_millis() == config.timeout_millis
            },
    {
        let sender = match config.sender() {
            Ok(sender) => sender,
            Err(_) => return Err(ConstructionError::InvalidSender),
        };
        let http_client = match http_client_with_timeout(config.timeout_millis) {
            Some(http_client) => http_client,
            None => return Err(ConstructionError::Transport),
        };
        Ok(Client {
            auth_token: config.auth_token,
            http_client,
            base_url: config.base_url,
            sender,
            timeout_millis: config.timeout_millis,
        })
    }

    /// The payload for one message to `recipient`, from the client's sender.
    pub fn request_for(
        &self,
        recipient: &Subscriber,
        subject: &str,
        html_body: &str,
        text_body: &str,
    ) -> (r: EmailRequest)
        ensures
            r.from@ == self.spec_sender(),
            r.to@ == recipient.email@,
            r.subject@ == subject@,
            r.html_body@ == html_body@,
            r.text_body@ == text_body@,
    {
        EmailRequest {
            from: String::from_str(self.sender.as_str()),
            to: String::from_str(recipient.email.as_str()),
            subject: String::from_str(subject),
            html_body: String::from_str(html_body),
            text_body: String::from_str(text_body),
        }
    }

    /// The URL that every send posts to.
    pub fn endpoint(&self) -> (r: String)
        ensures
            r@ == self.spec_base_url() + EMAIL_PATH@,
    {
        let url = self.base_url.clone();
        url.concat(EMAIL_PATH)
    }

    /// The access token, to be exposed only into the request header.
    pub fn auth_token(&self) -> (r: &SecretText)
        ensures
            *r == self.spec_auth_token(),
    {
        &self.auth_token
    }

    /// The transport, bounded by the configured timeout.
    pub fn http_client(&self) -> (r: &HttpClient) {
        &self.http_client
    }

    /// The sender every message goes out from.
    pub fn sender(&self) -> (r: &SubscriberEmail)
        ensures
            r@ == self.spec_sender(),
    {
        &self.sender
    }

    /// Bound on one whole request, in milliseconds.
    pub fn timeout_millis(&self) -> (r: u64)
        ensures
            r == self.spec_timeout_millis(),
    {
        self.timeout_millis
    }
}

} // verus!
