use email_newsletter::email_client::interpret_send_outcome;
use email_newsletter::email_client::DeliveryError;
use email_newsletter::email_client::EmailClient;
use email_newsletter::email_client::TransportEvent;
use email_newsletter::SecretString;

fn email_client(base_url: &str) -> EmailClient {
    EmailClient::new(
        base_url.to_string(),
        "sender@example.com".to_string(),
        SecretString::new("api-key".to_string()),
        SecretString::new("api-secret".to_string()),
        200,
    )
}

#[test]
fn send_email_sends_the_expected_request() {
    let client = email_client("https://provider.example.com");

    let request = client.build_send_request(
        "recipient@example.com",
        "Welcome!",
        "<p>Hello</p>",
        "Hello",
    );

    assert_eq!(request.url, "https://provider.example.com/send");
    let expected = "{\"Messages\":[{\"From\":{\"Email\":\"sender@example.com\",\"Name\":null},\"To\":[{\"Email\":\"recipient@example.com\",\"Name\":null}],\"Subject\":\"Welcome!\",\"HTMLPart\":\"<p>Hello</p>\",\"TextPart\":\"Hello\"}]}";
    assert_eq!(String::from_utf8(request.body.clone()).unwrap(), expected);
}

#[test]
fn request_body_escapes_json_specials() {
    let client = email_client("http://localhost");

    let request = client.build_send_request(
        "recipient@example.com",
        "a \"quoted\" subject",
        "back\\slash",
        "line\nbreak",
    );

    let body = String::from_utf8(request.body.clone()).unwrap();
    assert!(body.contains("a \\\"quoted\\\" subject"));
    assert!(body.contains("back\\\\slash"));
    assert!(body.contains("line\\u000abreak"));
}

#[test]
fn request_body_never_carries_the_credentials() {
    let client = email_client("http://localhost");

    let request = client.build_send_request("recipient@example.com", "s", "h", "t");

    let body = String::from_utf8(request.body.clone()).unwrap();
    assert!(!body.contains("api-key"));
    assert!(!body.contains("api-secret"));
}

#[test]
fn client_hands_out_its_configuration_for_the_transport_edge() {
    let client = email_client("http://localhost");

    assert_eq!(client.api_token().expose_secret(), "api-key");
    assert_eq!(client.secret_token().expose_secret(), "api-secret");
    assert_eq!(client.timeout_ms(), 200);
}

#[test]
fn send_email_succeeds_if_the_server_returns_200() {
    let outcome = interpret_send_outcome(TransportEvent::Response(200));
    assert!(outcome.is_ok());
    let outcome = interpret_send_outcome(TransportEvent::Response(299));
    assert!(outcome.is_ok());
}

#[test]
fn send_email_fails_if_the_server_returns_500() {
    let outcome = interpret_send_outcome(TransportEvent::Response(500));
    assert_eq!(outcome, Err(DeliveryError::ProviderRejected(500)));
    let outcome = interpret_send_outcome(TransportEvent::Response(301));
    assert_eq!(outcome, Err(DeliveryError::ProviderRejected(301)));
}

#[test]
fn send_email_times_out_if_the_server_takes_too_long() {
    let outcome = interpret_send_outcome(TransportEvent::TimedOut);
    assert_eq!(outcome, Err(DeliveryError::Timeout));
}

#[test]
fn send_email_fails_on_a_connection_level_failure() {
    let outcome = interpret_send_outcome(TransportEvent::ConnectionFailed);
    assert_eq!(outcome, Err(DeliveryError::TransportFailure));
}
