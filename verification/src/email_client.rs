//! The client that hands emails to the provider.
//!
//! `EmailClient::new` checks the configuration: a client that exists can
//! send. One send operation then has three steps. `EmailClient::prepare`
//! decides what goes to the provider: the endpoint and the message. The
//! caller performs the network call. `conclude` turns what came back into
//! success or a failure with its cause.

use crate::domain::SubscriberEmail;
use std::time::Duration;
use vstd::prelude::*;

verus! {

/// `reqwest::Client`, the HTTP client. Its inside is not looked at.
#[verifier::external_type_specification]
#[verifier::external_body]
pub struct ExHttpClient(reqwest::Client);

/// `resend_rs::Error`, what a failed call to the provider returns. Its
/// inside is read only by `failure_report`.
#[verifier::external_type_specification]
#[verifier::external_body]
pub struct ExProviderError(resend_rs::Error);

/// `resend_rs::types::CreateEmailBaseOptions`, one message in the form that
/// the provider's library sends. Its inside is not looked at.
#[verifier::external_type_specification]
#[verifier::external_body]
pub struct ExProviderEmail(resend_rs::types::CreateEmailBaseOptions);

/// What `reqwest::Url::parse` makes of a text: the URL in its serialised
/// form, or nothing where the text is no absolute URL.
pub uninterp spec fn parsed_url(text: Seq<char>) -> Option<Seq<char>>;

/// Calls `reqwest::Url::parse` and turns the URL back into text with
/// `String::from`. The contract gives the outcome its name, `parsed_url`,
/// and claims no more: the parser looks at its input alone.
#[verifier::external_body]
fn parse_url(text: &str) -> (r: Option<String>)
    ensures
        match r {
            Some(url) => parsed_url(text@) == Some(url@),
            None => parsed_url(text@) is None,
        },
{
    reqwest::Url::parse(text).ok().map(String::from)
}

/// The total request timeout that a `reqwest::Client` was built with: the
/// value that `ClientBuilder::timeout` took and `ClientBuilder::build` put
/// into the client.
pub uninterp spec fn request_timeout(client: reqwest::Client) -> Duration;

/// Calls `reqwest::Client::builder`, `ClientBuilder::timeout` and
/// `ClientBuilder::build`. Whether a client comes back depends on the
/// machine (the TLS backend, the resolver's configuration), so success is
/// not promised. The contract claims that a client that does come back
/// holds the timeout it was given as its total request timeout.
#[verifier::external_body]
fn build_http_client(timeout: Duration) -> (r: Option<reqwest::Client>)
    ensures
        r is Some ==> request_timeout(r->Some_0) == timeout,
{
    reqwest::Client::builder().timeout(timeout).build().ok()
}

/// Why a client cannot be set up.
#[derive(Clone, Copy, Debug, PartialEq, Eq, Structural)]
pub enum ConfigurationError {
    /// The HTTP client could not be built.
    HttpClientSetup,
    /// The base URL is not an absolute URL.
    MalformedBaseUrl,
}

/// Why a send operation failed.
#[derive(Clone, Debug, PartialEq, Eq)]
pub enum SendError {
    /// The provider could not be reached, or its answer did not arrive whole.
    Transport,
    /// No answer came within the configured timeout.
    Timeout,
    /// The provider answered and refused the message. `status` is the HTTP
    /// status and `name` the provider's name for the error, where the
    /// provider's library reports them; `message` is what the provider said.
    Provider { status: Option<u16>, name: Option<String>, message: String },
    /// The provider answered that too many requests were made, with the
    /// limits it gave.
    RateLimited { limit: Option<u64>, remaining: Option<u64>, reset: Option<u64> },
}

/// A failed call to the provider, as the provider's library reports it.
#[derive(Clone, Debug, PartialEq, Eq)]
pub enum ProviderFailure {
    /// The HTTP request failed; `timed_out` says whether a timeout was why.
    Http { timed_out: bool },
    /// The provider answered with an error report.
    Api { status: u16, name: String, message: String },
    /// The provider answered with an error status and a body that is no
    /// error report.
    Unparsed { message: String },
    /// The provider answered that too many requests were made. The numbers
    /// are those of its rate-limit headers, where it sent them.
    RateLimited { limit: Option<u64>, remaining: Option<u64>, reset: Option<u64> },
    /// Any other failure.
    Other { message: String },
}

/// The report that `failure_report` reads off a `resend_rs::Error`.
pub uninterp spec fn reported_failure(error: resend_rs::Error) -> ProviderFailure;

/// Tells the variants of `resend_rs::Error` apart and copies out what each
/// holds. For `Http` the flag is what `reqwest::Error::is_timeout` returns.
/// The contract gives the report its name, `reported_failure`, and claims
/// no more: the report depends on the error alone.
#[verifier::external_body]
fn failure_report(error: &resend_rs::Error) -> (r: ProviderFailure)
    ensures
        r == reported_failure(*error),
{
    match error {
        resend_rs::Error::Http(cause) => ProviderFailure::Http { timed_out: cause.is_timeout() },
        resend_rs::Error::Resend(answer) => ProviderFailure::Api {
            status: answer.status_code,
            name: answer.name.clone(),
            message: answer.message.clone(),
        },
        resend_rs::Error::Parse { message, .. } => ProviderFailure::Unparsed {
            message: message.clone(),
        },
        resend_rs::Error::RateLimit { ratelimit_limit: l, ratelimit_remaining: m, ratelimit_reset: t } =>
            ProviderFailure::RateLimited { limit: *l, remaining: *m, reset: *t },
        resend_rs::Error::Other(message) => ProviderFailure::Other { message: message.clone() },
    }
}

/// `cause` is what `failure` is reported under: a timeout is told apart
/// from every other transport failure, a rate limit keeps its numbers, and
/// whatever else the provider answered is a provider failure with the
/// status, the name and the detail it gave.
pub open spec fn reports(cause: SendError, failure: ProviderFailure) -> bool {
    match failure {
        ProviderFailure::Http { timed_out } => if timed_out {
            cause is Timeout
        } else {
            cause is Transport
        },
        ProviderFailure::Api { status, name, message } => is_provider_failure(
            cause,
            Some(status),
            Some(name@),
            message@,
        ),
        ProviderFailure::Unparsed { message } => is_provider_failure(cause, None, None, message@),
        ProviderFailure::RateLimited { limit, remaining, reset } => cause
            == (SendError::RateLimited { limit, remaining, reset }),
        ProviderFailure::Other { message } => is_provider_failure(cause, None, None, message@),
    }
}

/// `cause` is the provider failure with this status, name and message.
pub open spec fn is_provider_failure(
    cause: SendError,
    status: Option<u16>,
    name: Option<Seq<char>>,
    message: Seq<char>,
) -> bool {
    match cause {
        SendError::Provider { status: s, name: n, message: m } => {
            &&& s == status
            &&& m@ == message
            &&& match n {
                Some(n) => name == Some(n@),
                None => name is None,
            }
        },
        _ => false,
    }
}

/// The cause that `failure` is reported under.
pub fn classify(failure: ProviderFailure) -> (r: SendError)
    ensures
        reports(r, failure),
{
    match failure {
        ProviderFailure::Http { timed_out } => {
            if timed_out {
                SendError::Timeout
            } else {
                SendError::Transport
            }
        },
        ProviderFailure::Api { status, name, message } => SendError::Provider {
            status: Some(status),
            name: Some(name),
            message,
        },
        ProviderFailure::Unparsed { message } => SendError::Provider {
            status: None,
            name: None,
            message,
        },
        ProviderFailure::RateLimited { limit, remaining, reset } => SendError::RateLimited {
            limit,
            remaining,
            reset,
        },
        ProviderFailure::Other { message } => SendError::Provider {
            status: None,
            name: None,
            message,
        },
    }
}

/// The result of a send operation whose call to the provider ended as
/// `answer`: success exactly for an acknowledgment, whose identifier is
/// dropped, and otherwise the failure under its cause.
pub fn outcome(answer: Result<String, ProviderFailure>) -> (r: Result<(), SendError>)
    ensures
        match answer {
            Ok(_) => r is Ok,
            Err(failure) => r is Err && reports(r->Err_0, failure),
        },
{
    match answer {
        Ok(_) => Ok(()),
        Err(failure) => Err(classify(failure)),
    }
}

/// The cause that an error of the provider's library is reported under:
/// the cause of the report that the error holds.
pub fn failure_cause(error: &resend_rs::Error) -> (r: SendError)
    ensures
        reports(r, reported_failure(*error)),
{
    classify(failure_report(error))
}

/// The result of a send operation, from what the provider's library
/// returned: success exactly where it returned the message's identifier,
/// and otherwise the failure under the cause of the error's report.
pub fn conclude(answer: Result<String, resend_rs::Error>) -> (r: Result<(), SendError>)
    ensures
        match answer {
            Ok(_) => r is Ok,
            Err(error) => r is Err && reports(r->Err_0, reported_failure(error)),
        },
{
    match answer {
        Ok(id) => outcome(Ok(id)),
        Err(error) => outcome(Err(failure_report(&error))),
    }
}

/// One message as the provider takes it.
#[derive(Clone, Debug, PartialEq, Eq)]
pub struct EmailRequest {
    pub from: String,
    pub to: Vec<String>,
    pub subject: String,
    pub html: String,
    pub text: String,
}

impl EmailRequest {
    /// The message from `from` to the single recipient `to`, with the given
    /// subject and both forms of the content.
    pub open spec fn carries(
        self,
        from: Seq<char>,
        to: Seq<char>,
        subject: Seq<char>,
        html: Seq<char>,
        text: Seq<char>,
    ) -> bool {
        &&& self.from@ == from
        &&& self.to@.len() == 1
        &&& self.to@[0]@ == to
        &&& self.subject@ == subject
        &&& self.html@ == html
        &&& self.text@ == text
    }
}

/// The message `request` in the form that the provider's library sends.
pub uninterp spec fn provider_form(
    request: EmailRequest,
) -> resend_rs::types::CreateEmailBaseOptions;

/// Calls `CreateEmailBaseOptions::new` with the sender, the recipients and
/// the subject of `request`, then `with_text` and `with_html` with its two
/// contents. The contract gives the result its name, `provider_form`, and
/// claims no more: the result depends on the request alone.
#[verifier::external_body]
fn provider_email(request: &EmailRequest) -> (r: resend_rs::types::CreateEmailBaseOptions)
    ensures
        r == provider_form(*request),
{
    resend_rs::types::CreateEmailBaseOptions::new(
        request.from.clone(),
        request.to.clone(),
        request.subject.clone(),
    ).with_text(request.text.as_str()).with_html(request.html.as_str())
}

/// What one send operation hands to the network: where to, and what.
#[derive(Debug)]
pub struct PreparedSend {
    /// The provider's base URL in serialised form.
    pub endpoint: String,
    /// The message, field by field.
    pub request: EmailRequest,
    /// The same message in the form that the provider's library sends.
    pub email: resend_rs::types::CreateEmailBaseOptions,
}

impl PreparedSend {
    /// The send goes to `endpoint` and carries, field by field and in the
    /// provider's form, the one message from `from` to `to`.
    pub open spec fn sends(
        self,
        endpoint: Seq<char>,
        from: Seq<char>,
        to: Seq<char>,
        subject: Seq<char>,
        html: Seq<char>,
        text: Seq<char>,
    ) -> bool {
        &&& self.endpoint@ == endpoint
        &&& self.request.carries(from, to, subject, html, text)
        &&& self.email == provider_form(self.request)
    }
}

/// The sender's side of the provider's API: one HTTP client with a fixed
/// timeout, the provider's base URL, the address that mail is sent from and
/// the credential that authorises it.
///
/// The base URL is parsed when the client is made. The client keeps it as
/// it was given and, as `endpoint`, in the serialised form that the parser
/// gave it, which is where every send goes.
///
/// The credential's type `C` is the caller's secret holder. The client
/// stores it and lends it out sealed: nothing here can read, copy or print
/// what it holds.
pub struct EmailClient<C> {
    http_client: reqwest::Client,
    base_url: String,
    endpoint: String,
    sender: SubscriberEmail,
    authorization_token: C,
    timeout: Duration,
}

impl<C> EmailClient<C> {
    pub closed spec fn spec_base_url(&self) -> Seq<char> {
        self.base_url@
    }

    pub closed spec fn spec_endpoint(&self) -> Seq<char> {
        self.endpoint@
    }

    pub closed spec fn spec_sender(&self) -> Seq<char> {
        self.sender@
    }

    pub closed spec fn spec_authorization_token(&self) -> C {
        self.authorization_token
    }

    pub closed spec fn spec_timeout(&self) -> Duration {
        self.timeout
    }

    pub closed spec fn spec_http_client(&self) -> reqwest::Client {
        self.http_client
    }

    /// The client, given what the base URL parsed to and what building the
    /// HTTP client gave. A base URL that did not parse is refused first, then
    /// a missing HTTP client; with both at hand the client holds them and
    /// the rest of the configuration as passed.
    pub fn from_parts(
        endpoint: Option<String>,
        http_client: Option<reqwest::Client>,
        base_url: String,
        sender: SubscriberEmail,
        authorization_token: C,
        timeout: Duration,
    ) -> (r: Result<EmailClient<C>, ConfigurationError>)
        ensures
            match r {
                Ok(client) => {
                    &&& endpoint is Some
                    &&& client.spec_endpoint() == endpoint->Some_0@
                    &&& http_client == Some(client.spec_http_client())
                    &&& client.spec_base_url() == base_url@
                    &&& client.spec_sender() == sender@
                    &&& client.spec_authorization_token() == authorization_token
                    &&& client.spec_timeout() == timeout
                },
                Err(e) => if endpoint is None {
                    e == ConfigurationError::MalformedBaseUrl
                } else {
                    http_client is None && e == ConfigurationError::HttpClientSetup
                },
            },
    {
        match endpoint {
            None => Err(ConfigurationError::MalformedBaseUrl),
            Some(endpoint) => match http_client {
                None => Err(ConfigurationError::HttpClientSetup),
                Some(http_client) => Ok(
                    EmailClient {
                        http_client,
                        base_url,
                        endpoint,
                        sender,
                        authorization_token,
                        timeout,
                    },
                ),
            },
        }
    }

    /// Sets the client up. The base URL is parsed first: one that is no
    /// absolute URL is refused, and no HTTP client is built for it. Then the
    /// HTTP client is built with `timeout` as its total request timeout; the
    /// only other failure is that of its setup. A client that comes back
    /// holds the configuration as passed and the base URL's parsed form.
    pub fn new(
        base_url: String,
        sender: SubscriberEmail,
        authorization_token: C,
        timeout: Duration,
    ) -> (r: Result<EmailClient<C>, ConfigurationError>)
        ensures
            match r {
                Ok(client) => {
                    &&& parsed_url(base_url@) == Some(client.spec_endpoint())
                    &&& request_timeout(client.spec_http_client()) == timeout
                    &&& client.spec_base_url() == base_url@
                    &&& client.spec_sender() == sender@
                    &&& client.spec_authorization_token() == authorization_token
                    &&& client.spec_timeout() == timeout
                },
                Err(e) => if parsed_url(base_url@) is None {
                    e == ConfigurationError::MalformedBaseUrl
                } else {
                    e == ConfigurationError::HttpClientSetup
                },
            },
    {
        let endpoint = parse_url(base_url.as_str());
        let http_client = match endpoint {
            Some(_) => build_http_client(timeout),
            None => None,
        };
        EmailClient::from_parts(
            endpoint,
            http_client,
            base_url,
            sender,
            authorization_token,
            timeout,
        )
    }

    /// The base URL as it was given.
    pub fn base_url(&self) -> (r: &str)
        ensures
            r@ == self.spec_base_url(),
    {
        self.base_url.as_str()
    }

    /// The base URL in its parsed, serialised form.
    pub fn endpoint(&self) -> (r: &str)
        ensures
            r@ == self.spec_endpoint(),
    {
        self.endpoint.as_str()
    }

    pub fn sender(&self) -> (r: &SubscriberEmail)
        ensures
            r@ == self.spec_sender(),
    {
        &self.sender
    }

    /// The credential, still sealed.
    pub fn authorization_token(&self) -> (r: &C)
        ensures
            *r == self.spec_authorization_token(),
    {
        &self.authorization_token
    }

    pub fn timeout(&self) -> (r: Duration)
        ensures
            r == self.spec_timeout(),
    {
        self.timeout
    }

    /// The HTTP client that every send shares.
    pub fn http_client(&self) -> (r: &reqwest::Client)
        ensures
            *r == self.spec_http_client(),
    {
        &self.http_client
    }

    /// The message that a send to `recipient` carries: from the configured
    /// sender, to that one recipient.
    pub fn email_request(
        &self,
        recipient: SubscriberEmail,
        subject: &str,
        html_content: &str,
        text_content: &str,
    ) -> (r: EmailRequest)
        ensures
            r.carries(self.spec_sender(), recipient@, subject@, html_content@, text_content@),
    {
        let mut to: Vec<String> = Vec::new();
        to.push(recipient.as_str().to_owned());
        EmailRequest {
            from: self.sender.as_str().to_owned(),
            to,
            subject: subject.to_owned(),
            html: html_content.to_owned(),
            text: text_content.to_owned(),
        }
    }

    /// Prepares one send: it goes to the client's endpoint and carries the
    /// message of `email_request`, as plain fields and in the provider's
    /// form. Nothing can fail here: the configuration was checked when the
    /// client was made.
    pub fn prepare(
        &self,
        recipient: SubscriberEmail,
        subject: &str,
        html_content: &str,
        text_content: &str,
    ) -> (r: PreparedSend)
        ensures
            r.sends(
                self.spec_endpoint(),
                self.spec_sender(),
                recipient@,
                subject@,
                html_content@,
                text_content@,
            ),
    {
        let request = self.email_request(recipient, subject, html_content, text_content);
        let email = provider_email(&request);
        PreparedSend { endpoint: self.endpoint.clone(), request, email }
    }
}

} // verus!
