use apiai_shared::api::{HttpReply, SearchError, SearchResult};
use apiai_shared::encryption::{DecryptError, EnvelopeError};
use apiai_shared::relay::{interpret_plain, interpret_secure};
use apiai_shared::reply::{
    capitalize, label_provider, plain_result, read_field, read_reply_fields, secure_result,
    uppercase_of, Field, ReplyFields,
};
use apiai_shared::{ApiClient, SecureMessenger, TelegramClient};

fn text(s: &str) -> Option<String> {
    Some(s.to_string())
}

fn plain_client() -> TelegramClient {
    TelegramClient::new("http://host/ai_query".to_string(), "k".to_string(), None, false, true, None)
}

fn secure_client(secret: &str) -> TelegramClient {
    TelegramClient::new(
        "http://host/ai_query".to_string(),
        "k".to_string(),
        text(secret),
        true,
        true,
        None,
    )
}

fn ok(body: &str) -> HttpReply {
    HttpReply { status: 200, body: body.to_string() }
}

fn sealed_reply(secret: &str, payload: &str) -> HttpReply {
    let envelope = SecureMessenger::new(secret).encrypt_json(payload.as_bytes()).unwrap();
    ok(&format!("{{\"data\":\"{}\"}}", envelope))
}

#[test]
fn plaintext_json_answer_is_read() {
    let result = plain_client()
        .finish_search(&ok(r#"{"response":"42","conversation_id":"abc"}"#))
        .unwrap();
    assert_eq!(
        result,
        SearchResult {
            text: "42".to_string(),
            provider: "Anthropic".to_string(),
            model: None,
            conversation_id: text("abc"),
            request_id: None,
        }
    );
}

#[test]
fn plaintext_answer_that_is_no_json_is_used_verbatim() {
    let result = plain_client().finish_search(&ok("hello world")).unwrap();
    assert_eq!(result.text, "hello world");
    assert_eq!(result.conversation_id, None);
    assert_eq!(result.model, None);
    assert_eq!(result.request_id, None);
    assert_eq!(result.provider, "Anthropic");
}

#[test]
fn plaintext_answer_with_all_fields() {
    let body = r#"{"response":"hi","conversation_id":"c1","provider":"openai","model":"m-1","request_id":"r-9","processing_time_ms":12}"#;
    assert_eq!(
        interpret_plain(body),
        SearchResult {
            text: "hi".to_string(),
            provider: "Openai".to_string(),
            model: text("m-1"),
            conversation_id: text("c1"),
            request_id: text("r-9"),
        }
    );
}

#[test]
fn plaintext_answer_falls_back_to_content() {
    assert_eq!(interpret_plain(r#"{"content":"from content"}"#).text, "from content");
    assert_eq!(interpret_plain(r#"{"response":"r","content":"c"}"#).text, "r");
}

#[test]
fn plaintext_answer_without_text_is_the_raw_body() {
    for body in [
        r#"{"other":1}"#,
        r#"{"response":5}"#,
        r#"{"response":null,"content":"ignored"}"#,
        r#"{"content":["a"]}"#,
        "[1,2]",
        "\"hello\"",
        "17",
    ] {
        assert_eq!(interpret_plain(body).text, body);
    }
}

#[test]
fn plaintext_fields_that_are_no_strings_are_absent() {
    let result = interpret_plain(r#"{"response":"x","conversation_id":7,"model":null,"provider":[],"request_id":true}"#);
    assert_eq!(result.conversation_id, None);
    assert_eq!(result.model, None);
    assert_eq!(result.request_id, None);
    assert_eq!(result.provider, "Anthropic");
}

#[test]
fn empty_body_is_an_empty_answer() {
    let result = interpret_plain("");
    assert_eq!(result.text, "");
    assert_eq!(result.provider, "Anthropic");
}

#[test]
fn escapes_in_answers_are_resolved() {
    let result = interpret_plain(r#"{"response":"line\nbreak \"quoted\" é"}"#);
    assert_eq!(result.text, "line\nbreak \"quoted\" é");
}

#[test]
fn upstream_status_is_an_error() {
    for status in [199u16, 300, 404, 500] {
        let reply = HttpReply { status, body: "no".to_string() };
        assert_eq!(
            plain_client().finish_search(&reply),
            Err(SearchError::UpstreamError { status, body: "no".to_string() })
        );
        assert_eq!(
            secure_client("s").finish_search(&reply),
            Err(SearchError::UpstreamError { status, body: "no".to_string() })
        );
    }
    for status in [200u16, 201, 204, 299] {
        let reply = HttpReply { status, body: "fine".to_string() };
        assert_eq!(plain_client().finish_search(&reply).unwrap().text, "fine");
    }
}

#[test]
fn provider_is_capitalized() {
    assert_eq!(capitalize("anthropic"), "Anthropic");
    assert_eq!(capitalize("openai"), "Openai");
    assert_eq!(capitalize("OpenAI"), "OpenAI");
    assert_eq!(capitalize("x"), "X");
    assert_eq!(capitalize(""), "");
    assert_eq!(capitalize("9lives"), "9lives");
    assert_eq!(capitalize("-dash"), "-dash");
}

#[test]
fn capitalization_follows_unicode() {
    assert_eq!(capitalize("élan"), "Élan");
    assert_eq!(capitalize("ßeta"), "SSeta");
    assert_eq!(capitalize("яндекс"), "Яндекс");
    assert_eq!(capitalize("中文"), "中文");
}

#[test]
fn uppercase_mapping_of_characters() {
    assert_eq!(uppercase_of('a'), vec!['A']);
    assert_eq!(uppercase_of('z'), vec!['Z']);
    assert_eq!(uppercase_of('A'), vec!['A']);
    assert_eq!(uppercase_of('{'), vec!['{']);
    assert_eq!(uppercase_of('`'), vec!['`']);
    assert_eq!(uppercase_of('ß'), vec!['S', 'S']);
    assert_eq!(uppercase_of('ﬁ'), vec!['F', 'I']);
    assert_eq!(uppercase_of('ж'), vec!['Ж']);
}

#[test]
fn uppercase_agrees_with_the_standard_library() {
    for code in 0u32..0x3000 {
        if let Some(c) = char::from_u32(code) {
            assert_eq!(uppercase_of(c), c.to_uppercase().collect::<Vec<char>>());
        }
    }
}

#[test]
fn provider_label_defaults_to_anthropic() {
    assert_eq!(label_provider(&None), "Anthropic");
    assert_eq!(label_provider(&text("openai")), "Openai");
    assert_eq!(label_provider(&text("")), "");
}

#[test]
fn fields_are_read_from_a_document() {
    let doc = br#"{"response":"r","content":3,"provider":"p","model":"m","request_id":"q"}"#;
    assert_eq!(
        read_reply_fields(doc),
        ReplyFields {
            response: Field::Text("r".to_string()),
            content: Field::Other,
            conversation_id: None,
            provider: text("p"),
            model: text("m"),
            request_id: text("q"),
        }
    );
    assert_eq!(read_field(doc, "response"), Field::Text("r".to_string()));
    assert_eq!(read_field(doc, "content"), Field::Other);
    assert_eq!(read_field(doc, "missing"), Field::Absent);
    assert_eq!(read_field(b"[1]", "response"), Field::Absent);
    assert_eq!(read_field(b"not json", "response"), Field::Absent);
}

#[test]
fn plain_result_from_given_fields() {
    let fields = ReplyFields {
        response: Field::Absent,
        content: Field::Text("c".to_string()),
        conversation_id: text("id"),
        provider: text("telegram"),
        model: None,
        request_id: None,
    };
    let result = plain_result("raw", Some(fields));
    assert_eq!(result.text, "c");
    assert_eq!(result.provider, "Telegram");
    assert_eq!(result.conversation_id, text("id"));
    let result = plain_result("raw", None);
    assert_eq!(result.text, "raw");
    assert_eq!(result.provider, "Anthropic");
}

#[test]
fn secure_result_from_given_fields() {
    let fields = ReplyFields {
        response: Field::Other,
        content: Field::Text("ignored".to_string()),
        conversation_id: None,
        provider: None,
        model: text("m"),
        request_id: text("r"),
    };
    let result = secure_result("{\"whole\":1}", fields.clone());
    assert_eq!(result.text, "");
    assert_eq!(result.provider, "Anthropic");
    assert_eq!(result.model, text("m"));
    assert_eq!(result.request_id, text("r"));
    let absent = ReplyFields { response: Field::Absent, ..fields.clone() };
    assert_eq!(secure_result("{\"whole\":1}", absent).text, "{\"whole\":1}");
    let given = ReplyFields { response: Field::Text("t".to_string()), ..fields };
    assert_eq!(secure_result("{\"whole\":1}", given).text, "t");
}

#[test]
fn encrypted_answer_is_opened_and_read() {
    let reply = sealed_reply(
        "mysecret",
        r#"{"response":"secret answer","conversation_id":"c7","provider":"openai","model":"gpt","request_id":"req-1"}"#,
    );
    assert_eq!(
        secure_client("mysecret").finish_search(&reply),
        Ok(SearchResult {
            text: "secret answer".to_string(),
            provider: "Openai".to_string(),
            model: text("gpt"),
            conversation_id: text("c7"),
            request_id: text("req-1"),
        })
    );
}

#[test]
fn encrypted_answer_without_response_is_given_whole() {
    let reply = sealed_reply("mysecret", "{ \"b\" : 1,\n \"a\" : [true, null] }");
    let result = secure_client("mysecret").finish_search(&reply).unwrap();
    assert_eq!(result.text, r#"{"a":[true,null],"b":1}"#);
    assert_eq!(result.provider, "Anthropic");
    assert_eq!(result.conversation_id, None);
    let reply = sealed_reply("mysecret", "\"just text\"");
    assert_eq!(secure_client("mysecret").finish_search(&reply).unwrap().text, "\"just text\"");
}

#[test]
fn encrypted_answer_whose_response_is_no_string_is_empty() {
    let reply = sealed_reply("mysecret", r#"{"response":{"nested":1},"content":"c"}"#);
    assert_eq!(secure_client("mysecret").finish_search(&reply).unwrap().text, "");
}

#[test]
fn encrypted_answer_without_data_breaks_the_protocol() {
    let client = secure_client("mysecret");
    for body in [r#"{"response":"plain"}"#, r#"{"data":5}"#, "[]", "not json", ""] {
        assert_eq!(client.finish_search(&ok(body)), Err(SearchError::MalformedResponse));
    }
}

#[test]
fn encrypted_answer_that_does_not_open_is_a_decrypt_error() {
    let client = secure_client("mysecret");
    assert_eq!(
        client.finish_search(&sealed_reply("another", r#"{"response":"x"}"#)),
        Err(SearchError::DecryptError(EnvelopeError::Decrypt(DecryptError::AuthFailed)))
    );
    assert_eq!(
        client.finish_search(&ok(r#"{"data":"%%%"}"#)),
        Err(SearchError::DecryptError(EnvelopeError::Encoding))
    );
    assert_eq!(
        client.finish_search(&ok(r#"{"data":"AAAA"}"#)),
        Err(SearchError::DecryptError(EnvelopeError::Decrypt(DecryptError::TooShort)))
    );
    assert_eq!(
        client.finish_search(&sealed_reply("mysecret", "no json inside")),
        Err(SearchError::DecryptError(EnvelopeError::Payload))
    );
}

#[test]
fn interpret_secure_uses_the_given_cipher() {
    let messenger = SecureMessenger::new("mysecret");
    let reply = sealed_reply("mysecret", r#"{"response":"ok"}"#);
    assert_eq!(interpret_secure(&messenger, &reply.body).unwrap().text, "ok");
}

#[test]
fn encryption_needs_both_the_flag_and_a_secret() {
    let body = r#"{"response":"plain"}"#;
    let flag_only =
        TelegramClient::new("http://h".to_string(), String::new(), None, true, false, None);
    assert!(!flag_only.uses_encryption());
    assert_eq!(flag_only.finish_search(&ok(body)).unwrap().text, "plain");
    let secret_only =
        TelegramClient::new("http://h".to_string(), String::new(), text("s"), false, false, None);
    assert!(!secret_only.uses_encryption());
    assert_eq!(secret_only.finish_search(&ok(body)).unwrap().text, "plain");
    assert!(secure_client("s").uses_encryption());
}
