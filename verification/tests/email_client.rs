use mailer::domain::SubscriberEmail;
use mailer::email_client::{
    classify, conclude, failure_cause, outcome, ConfigurationError, EmailClient, EmailRequest,
    ProviderFailure, SendError,
};
use secrecy::{ExposeSecret, SecretString};
use std::time::Duration;

fn address(text: &str) -> SubscriberEmail {
    match SubscriberEmail::parse(text.to_string()) {
        Ok(email) => email,
        Err(_) => panic!("{} was refused", text),
    }
}

fn client(base_url: &str) -> EmailClient<SecretString> {
    let made = EmailClient::new(
        base_url.to_string(),
        address("sender@example.com"),
        SecretString::new("re_0123456789abcdef".to_string().into_boxed_str()),
        Duration::from_millis(200),
    );
    match made {
        Ok(client) => client,
        Err(_) => panic!("no HTTP client"),
    }
}

#[test]
fn request_has_one_recipient_and_the_configured_sender() {
    let client = client("http://127.0.0.1:4010");
    let request = client.email_request(
        address("recipient@example.com"),
        "A subject",
        "<h1>Hello</h1>",
        "Hello",
    );
    assert_eq!(
        request,
        EmailRequest {
            from: "sender@example.com".to_string(),
            to: vec!["recipient@example.com".to_string()],
            subject: "A subject".to_string(),
            html: "<h1>Hello</h1>".to_string(),
            text: "Hello".to_string(),
        }
    );
}

#[test]
fn request_takes_empty_contents_as_they_are() {
    let client = client("http://127.0.0.1:4010");
    let request = client.email_request(address("r@example.com"), "", "", "");
    assert_eq!(request.to, vec!["r@example.com".to_string()]);
    assert_eq!(request.subject, "");
    assert_eq!(request.html, "");
    assert_eq!(request.text, "");
}

#[test]
fn acknowledgment_is_success() {
    assert_eq!(outcome(Ok(String::new())), Ok(()));
    assert_eq!(conclude(Ok(String::new())), Ok(()));
}

#[test]
fn server_error_is_a_provider_failure() {
    let failure = ProviderFailure::Api {
        status: 500,
        name: "internal_server_error".to_string(),
        message: "internal".to_string(),
    };
    assert_eq!(
        outcome(Err(failure)),
        Err(SendError::Provider {
            status: Some(500),
            name: Some("internal_server_error".to_string()),
            message: "internal".to_string(),
        })
    );
}

#[test]
fn client_error_is_a_provider_failure() {
    let failure = ProviderFailure::Api {
        status: 422,
        name: "missing_required_field".to_string(),
        message: "missing `to`".to_string(),
    };
    assert_eq!(
        classify(failure),
        SendError::Provider {
            status: Some(422),
            name: Some("missing_required_field".to_string()),
            message: "missing `to`".to_string(),
        }
    );
}

#[test]
fn timeout_is_a_failure_of_its_own() {
    assert_eq!(outcome(Err(ProviderFailure::Http { timed_out: true })), Err(SendError::Timeout));
}

#[test]
fn other_http_failure_is_a_transport_failure() {
    assert_eq!(
        outcome(Err(ProviderFailure::Http { timed_out: false })),
        Err(SendError::Transport)
    );
}

#[test]
fn unparsed_answer_keeps_its_text() {
    let failure = ProviderFailure::Unparsed { message: "<html>502</html>".to_string() };
    assert_eq!(
        classify(failure),
        SendError::Provider { status: None, name: None, message: "<html>502</html>".to_string() }
    );
}

#[test]
fn rate_limit_is_reported_with_its_numbers() {
    assert_eq!(
        classify(ProviderFailure::RateLimited { limit: Some(2), remaining: None, reset: Some(1) }),
        SendError::RateLimited { limit: Some(2), remaining: None, reset: Some(1) }
    );
}

#[test]
fn other_failure_keeps_its_text() {
    let failure = ProviderFailure::Other { message: "odd".to_string() };
    assert_eq!(
        classify(failure),
        SendError::Provider { status: None, name: None, message: "odd".to_string() }
    );
}

#[test]
fn library_error_report_is_classified() {
    let report = resend_rs::types::ErrorResponse {
        status_code: 500,
        message: "boom".to_string(),
        name: "application_error".to_string(),
    };
    assert_eq!(
        failure_cause(&resend_rs::Error::Resend(report.clone())),
        SendError::Provider {
            status: Some(500),
            name: Some("application_error".to_string()),
            message: "boom".to_string(),
        }
    );
    assert_eq!(
        conclude(Err(resend_rs::Error::Resend(report))),
        Err(SendError::Provider {
            status: Some(500),
            name: Some("application_error".to_string()),
            message: "boom".to_string(),
        })
    );
}

#[test]
fn library_parse_error_is_classified() {
    let error = resend_rs::Error::Parse { message: "{}".to_string(), source: None };
    assert_eq!(
        failure_cause(&error),
        SendError::Provider { status: None, name: None, message: "{}".to_string() }
    );
}

#[test]
fn library_rate_limit_is_classified() {
    let error = resend_rs::Error::RateLimit {
        ratelimit_limit: Some(2),
        ratelimit_remaining: Some(0),
        ratelimit_reset: Some(1),
    };
    assert_eq!(
        failure_cause(&error),
        SendError::RateLimited { limit: Some(2), remaining: Some(0), reset: Some(1) }
    );
}

#[test]
fn library_other_error_is_classified() {
    let error = resend_rs::Error::Other("odd".to_string());
    assert_eq!(
        conclude(Err(error)),
        Err(SendError::Provider { status: None, name: None, message: "odd".to_string() })
    );
}

#[test]
fn library_http_error_without_timeout_is_transport() {
    let failed = reqwest::Client::new().get("not a url").build();
    match failed {
        Ok(_) => panic!("a request was built"),
        Err(cause) => {
            assert!(!cause.is_timeout());
            assert_eq!(failure_cause(&resend_rs::Error::Http(cause)), SendError::Transport);
        }
    }
}

fn json_text(value: &serde_json::Value, key: &str) -> String {
    match value.get(key).and_then(|v| v.as_str()) {
        Some(text) => text.to_string(),
        None => panic!("no text under {}", key),
    }
}

fn secret(text: &str) -> SecretString {
    SecretString::new(text.to_string().into_boxed_str())
}

#[test]
fn new_keeps_the_configuration() {
    let client = client("http://127.0.0.1:4010");
    assert_eq!(client.base_url(), "http://127.0.0.1:4010");
    assert_eq!(client.endpoint(), "http://127.0.0.1:4010/");
    assert_eq!(client.sender().as_str(), "sender@example.com");
    assert_eq!(client.timeout(), Duration::from_millis(200));
    assert_eq!(client.authorization_token().expose_secret(), "re_0123456789abcdef");
}

#[test]
fn new_keeps_the_parsed_form_of_the_base_url() {
    assert_eq!(client("http://localhost:8080").endpoint(), "http://localhost:8080/");
    let client = client("HTTP://Example.COM/api");
    assert_eq!(client.base_url(), "HTTP://Example.COM/api");
    assert_eq!(client.endpoint(), "http://example.com/api");
}

#[test]
fn new_refuses_a_malformed_base_url() {
    for base_url in ["", "not a url", "/emails", "localhost"] {
        let made = EmailClient::new(
            base_url.to_string(),
            address("sender@example.com"),
            secret("re_1"),
            Duration::from_millis(200),
        );
        assert!(matches!(made, Err(ConfigurationError::MalformedBaseUrl)));
    }
}

#[test]
fn unparsed_base_url_is_refused_first() {
    let made = EmailClient::from_parts(
        None,
        Some(reqwest::Client::new()),
        "not a url".to_string(),
        address("sender@example.com"),
        secret("re_1"),
        Duration::from_millis(200),
    );
    assert!(matches!(made, Err(ConfigurationError::MalformedBaseUrl)));
    let made = EmailClient::from_parts(
        None,
        None,
        "not a url".to_string(),
        address("sender@example.com"),
        secret("re_1"),
        Duration::from_millis(200),
    );
    assert!(matches!(made, Err(ConfigurationError::MalformedBaseUrl)));
}

#[test]
fn missing_http_client_is_a_configuration_error() {
    let made = EmailClient::from_parts(
        Some("http://127.0.0.1:4010/".to_string()),
        None,
        "http://127.0.0.1:4010".to_string(),
        address("sender@example.com"),
        secret("re_1"),
        Duration::from_millis(200),
    );
    assert!(matches!(made, Err(ConfigurationError::HttpClientSetup)));
}

#[test]
fn given_parts_are_kept() {
    let made = EmailClient::from_parts(
        Some("http://127.0.0.1:4010/".to_string()),
        Some(reqwest::Client::new()),
        "http://127.0.0.1:4010".to_string(),
        address("sender@example.com"),
        secret("re_1"),
        Duration::from_secs(3),
    );
    match made {
        Ok(client) => {
            assert_eq!(client.base_url(), "http://127.0.0.1:4010");
            assert_eq!(client.endpoint(), "http://127.0.0.1:4010/");
            assert_eq!(client.sender().as_str(), "sender@example.com");
            assert_eq!(client.timeout(), Duration::from_secs(3));
            assert_eq!(client.authorization_token().expose_secret(), "re_1");
        }
        Err(_) => panic!("refused"),
    }
}

#[test]
fn prepare_goes_to_the_endpoint() {
    let client = client("http://localhost:8080");
    let to = address("user@example.com");
    let prepared = client.prepare(to.clone(), "Hi", "<p>hi</p>", "hi");
    assert_eq!(prepared.endpoint, "http://localhost:8080/");
    assert_eq!(prepared.request, client.email_request(to, "Hi", "<p>hi</p>", "hi"));
}

#[test]
fn send_is_prepared_and_acknowledged() {
    let client = client("http://127.0.0.1:4010");
    let prepared = client.prepare(address("user@example.com"), "Hi", "<p>hi</p>", "hi");
    assert_eq!(prepared.endpoint, "http://127.0.0.1:4010/");
    assert_eq!(prepared.request.from, "sender@example.com");
    assert_eq!(prepared.request.to, vec!["user@example.com".to_string()]);
    assert_eq!(prepared.request.subject, "Hi");
    assert_eq!(prepared.request.html, "<p>hi</p>");
    assert_eq!(prepared.request.text, "hi");
    let acknowledged = Ok("b1946ac9-46c4-4c8e-8b8a-8e1e8c8d8f8e".to_string());
    assert_eq!(conclude(acknowledged), Ok(()));
}

#[test]
fn provider_form_carries_the_same_message() {
    let client = client("http://127.0.0.1:4010");
    let prepared = client.prepare(address("user@example.com"), "Hi", "<p>hi</p>", "hi");
    let body = match serde_json::to_value(&prepared.email) {
        Ok(body) => body,
        Err(_) => panic!("not serialised"),
    };
    assert_eq!(json_text(&body, "from"), "sender@example.com");
    assert_eq!(json_text(&body, "subject"), "Hi");
    assert_eq!(json_text(&body, "html"), "<p>hi</p>");
    assert_eq!(json_text(&body, "text"), "hi");
    match body.get("to").and_then(|v| v.as_array()) {
        Some(to) => {
            assert_eq!(to.len(), 1);
            assert_eq!(to[0].as_str(), Some("user@example.com"));
        }
        None => panic!("no recipients"),
    }
    assert!(body.get("cc").is_none());
    assert!(body.get("bcc").is_none());
}
