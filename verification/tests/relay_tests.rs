use apiai_shared::api::{Exchange, Header, HttpReply, SearchError};
use apiai_shared::relay::{
    cancel_outcome, cancel_request, envelope_request_body, relay_headers, relay_payload,
    CancelOutcome,
};
use apiai_shared::{ApiClient, SecureMessenger, TelegramClient};
use serde_json::{Number, Value};
use sha2::{Digest, Sha256};

const NONCE: [u8; 12] = [9, 8, 7, 6, 5, 4, 3, 2, 1, 0, 1, 2];

fn text(s: &str) -> Option<String> {
    Some(s.to_string())
}

fn header(name: &str, value: &str) -> Header {
    Header { name: name.to_string(), value: value.to_string() }
}

fn expected_payload(query: &str, chat_mode: bool, conversation_id: Option<&str>) -> Value {
    let mut payload = serde_json::Map::new();
    payload.insert("prompt".to_string(), Value::String(query.to_string()));
    payload.insert("provider".to_string(), Value::String("anthropic".to_string()));
    payload.insert("max_tokens".to_string(), Value::Number(Number::from(1024)));
    payload.insert("chat_mode".to_string(), Value::Bool(chat_mode));
    if let Some(id) = conversation_id {
        payload.insert("conversation_id".to_string(), Value::String(id.to_string()));
    }
    Value::Object(payload)
}

fn client(url: &str, key: &str, secret: Option<&str>, encrypt: bool) -> TelegramClient {
    TelegramClient::new(
        url.to_string(),
        key.to_string(),
        secret.map(|s| s.to_string()),
        encrypt,
        true,
        text("conv-1"),
    )
}

#[test]
fn payload_has_the_wire_fields() {
    let payload = relay_payload("what?", true, &None);
    assert_eq!(
        payload,
        r#"{"chat_mode":true,"max_tokens":1024,"prompt":"what?","provider":"anthropic"}"#
    );
    let payload = relay_payload("what?", false, &text("c-42"));
    assert_eq!(
        payload,
        r#"{"chat_mode":false,"conversation_id":"c-42","max_tokens":1024,"prompt":"what?","provider":"anthropic"}"#
    );
}

#[test]
fn payload_is_what_the_json_library_writes() {
    let cases = [
        ("plain", true, None),
        ("with \"quotes\" and \\ and \n", false, Some("id \"x\"")),
        ("юникод ☃", true, Some("")),
        ("", false, None),
    ];
    for (query, chat_mode, conversation_id) in cases {
        let payload = relay_payload(query, chat_mode, &conversation_id.map(|s| s.to_string()));
        let expected = expected_payload(query, chat_mode, conversation_id);
        assert_eq!(serde_json::from_str::<Value>(&payload).unwrap(), expected);
        assert_eq!(payload, expected.to_string());
    }
}

#[test]
fn headers_carry_key_and_identity() {
    assert_eq!(
        relay_headers("secret-key"),
        vec![header("X-API-KEY", "secret-key"), header("X-APP-ID", "apiai-v2")]
    );
}

#[test]
fn empty_key_is_not_sent() {
    assert_eq!(relay_headers(""), vec![header("X-APP-ID", "apiai-v2")]);
}

#[test]
fn plaintext_request_goes_to_the_url_as_configured() {
    let request = client("http://host/ai_query/", "k", None, false).begin_search("hi").unwrap();
    assert_eq!(request.url, "http://host/ai_query/");
    assert_eq!(request.headers, vec![header("X-API-KEY", "k"), header("X-APP-ID", "apiai-v2")]);
    assert_eq!(request.body, relay_payload("hi", true, &text("conv-1")));
    assert_eq!(
        serde_json::from_str::<Value>(&request.body).unwrap(),
        expected_payload("hi", true, Some("conv-1"))
    );
}

#[test]
fn plaintext_request_without_url_is_refused() {
    assert_eq!(
        client("", "k", None, false).begin_search("hi"),
        Err(SearchError::MissingCredential)
    );
    assert_eq!(
        client("", "k", Some("secret"), false).begin_search("hi"),
        Err(SearchError::MissingCredential)
    );
    assert_eq!(
        client("", "k", None, true).begin_search("hi"),
        Err(SearchError::MissingCredential)
    );
}

#[test]
fn encrypted_request_goes_to_the_secure_endpoint() {
    let relay = client("http://host/ai_query", "k", Some("mysecret"), true);
    let request = relay.begin_search("hi").unwrap();
    assert_eq!(request.url, "http://host/ai_query/secure");
    assert_eq!(request.headers, vec![header("X-API-KEY", "k"), header("X-APP-ID", "apiai-v2")]);
    let body: Value = serde_json::from_str(&request.body).unwrap();
    let members = body.as_object().unwrap();
    assert_eq!(members.len(), 1);
    let envelope = members["data"].as_str().unwrap();
    let messenger = SecureMessenger::new("mysecret");
    assert_eq!(messenger.key_bytes(), Sha256::digest(b"mysecret").to_vec());
    let payload = messenger.decrypt_json(envelope).unwrap();
    assert_eq!(payload, relay_payload("hi", true, &text("conv-1")).into_bytes());
    assert_eq!(
        serde_json::from_slice::<Value>(&payload).unwrap(),
        expected_payload("hi", true, Some("conv-1"))
    );
}

#[test]
fn encrypted_request_does_not_show_the_query() {
    let relay = client("http://host/ai_query", "k", Some("mysecret"), true);
    let request = relay.begin_search("a very recognizable query").unwrap();
    assert!(!request.body.contains("recognizable"));
    assert!(!request.body.contains("prompt"));
}

#[test]
fn encrypted_requests_differ_from_call_to_call() {
    let relay = client("http://host/ai_query", "k", Some("mysecret"), true);
    assert_ne!(relay.begin_search("hi").unwrap().body, relay.begin_search("hi").unwrap().body);
}

#[test]
fn encrypted_request_with_a_given_nonce_is_exact() {
    let relay = client("http://host/echo/", "", Some("mysecret"), true);
    let request = relay.begin_search_with_nonce("hi", &NONCE).unwrap();
    assert_eq!(request.url, "http://host/echo");
    assert_eq!(request.headers, vec![header("X-APP-ID", "apiai-v2")]);
    let payload = relay_payload("hi", true, &text("conv-1"));
    let envelope = SecureMessenger::new("mysecret")
        .encrypt_json_with_nonce(&NONCE, payload.as_bytes())
        .unwrap();
    assert_eq!(request.body, format!("{{\"data\":\"{}\"}}", envelope));
    assert_eq!(request.body, envelope_request_body(&envelope));
    assert_eq!(relay.begin_search_with_nonce("hi", &NONCE).unwrap(), request);
}

#[test]
fn nonce_is_not_used_in_plaintext() {
    let relay = client("http://host", "k", None, false);
    assert_eq!(relay.begin_search_with_nonce("hi", &NONCE), relay.begin_search("hi"));
}

#[test]
fn encrypted_request_without_url_is_not_refused() {
    let request = client("", "k", Some("mysecret"), true).begin_search("hi").unwrap();
    assert_eq!(request.url, "/ai_query/secure");
}

#[test]
fn envelope_body_is_one_member() {
    assert_eq!(envelope_request_body("QUJD+/8="), r#"{"data":"QUJD+/8="}"#);
}

#[test]
fn round_trip_through_an_echoing_relay() {
    let relay = client("http://host/echo", "k", Some("mysecret"), true);
    let request = relay.begin_search("ping").unwrap();
    let reply = HttpReply { status: 200, body: request.body };
    let result = relay.finish_search(&reply).unwrap();
    assert_eq!(result.text, relay_payload("ping", true, &text("conv-1")));
    assert_eq!(result.conversation_id, text("conv-1"));
    assert_eq!(result.provider, "Anthropic");
}

#[test]
fn cancel_request_is_complete() {
    let request = cancel_request("req-7", "http://host/ai_query", "k");
    assert_eq!(request.url, "http://host/cancel_request");
    assert_eq!(request.headers, vec![header("X-API-KEY", "k"), header("X-APP-ID", "apiai-v2")]);
    assert_eq!(request.body, r#"{"request_id":"req-7"}"#);
    let request = cancel_request("a\"b", "http://host", "");
    assert_eq!(request.url, "http://host/cancel_request");
    assert_eq!(request.headers, vec![header("X-APP-ID", "apiai-v2")]);
    let mut expected = serde_json::Map::new();
    expected.insert("request_id".to_string(), Value::String("a\"b".to_string()));
    assert_eq!(serde_json::from_str::<Value>(&request.body).unwrap(), Value::Object(expected));
}

#[test]
fn cancel_never_fails() {
    let replied = |status: u16| Exchange::Replied(HttpReply { status, body: "x".to_string() });
    assert_eq!(cancel_outcome(&replied(200)), CancelOutcome::Cancelled);
    assert_eq!(cancel_outcome(&replied(204)), CancelOutcome::Cancelled);
    assert_eq!(cancel_outcome(&replied(404)), CancelOutcome::Declined(404));
    assert_eq!(cancel_outcome(&replied(500)), CancelOutcome::Declined(500));
    assert_eq!(
        cancel_outcome(&Exchange::Failed("connection refused".to_string())),
        CancelOutcome::Unreachable("connection refused".to_string())
    );
}

fn stated_escape(c: char) -> String {
    match c {
        '"' => "\\\"".to_string(),
        '\\' => "\\\\".to_string(),
        '\u{8}' => "\\b".to_string(),
        '\t' => "\\t".to_string(),
        '\n' => "\\n".to_string(),
        '\u{c}' => "\\f".to_string(),
        '\r' => "\\r".to_string(),
        c if (c as u32) < 0x20 => format!("\\u00{:02x}", c as u32),
        c => c.to_string(),
    }
}

#[test]
fn control_characters_are_escaped() {
    let payload =
        relay_payload("\u{0}\u{1}\u{8}\t\n\u{b}\u{c}\r\u{1f} \"\\/\u{7f}é\u{2028}", true, &None);
    assert_eq!(
        payload,
        "{\"chat_mode\":true,\"max_tokens\":1024,\"prompt\":\"\\u0000\\u0001\\b\\t\\n\\u000b\\f\\r\\u001f \\\"\\\\/\u{7f}é\u{2028}\",\"provider\":\"anthropic\"}"
    );
}

#[test]
fn every_character_is_quoted_as_stated() {
    for code in 0u32..0x3000 {
        if let Some(c) = char::from_u32(code) {
            let text = format!("a{}b", c);
            let body = envelope_request_body(&text);
            assert_eq!(body, format!("{{\"data\":\"a{}b\"}}", stated_escape(c)), "U+{:04X}", code);
        }
    }
    for c in ['\u{FFFF}', '\u{10000}', '\u{1F600}', '\u{10FFFF}'] {
        let body = envelope_request_body(&c.to_string());
        assert_eq!(body, format!("{{\"data\":\"{}\"}}", c));
    }
}

#[test]
fn empty_text_is_quoted_as_two_marks() {
    assert_eq!(envelope_request_body(""), "{\"data\":\"\"}");
}
