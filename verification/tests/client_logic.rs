use std::time::Duration;

use simplellm::client::{Endpoint, HttpMethod};
use simplellm::config::{ClientSettings, Environment};
use simplellm::encoding::urlencoding_encode;
use simplellm::response::{api_error, is_success_status, parse_error_body};
use simplellm::sse::{SseAction, SseDecoder};
use simplellm::transcription::transcription_form;
use simplellm::{ClientConfig, SimpleLLM, SimpleLlmError};

fn no_env() -> Environment {
    Environment { api_key: None, base_url: None }
}

fn data_of(a: SseAction) -> String {
    match a {
        SseAction::Data(s) => s,
        SseAction::Done => panic!("expected data, got done"),
        SseAction::NeedMore => panic!("expected data, got need-more"),
    }
}

#[test]
fn test_parse_error_body_valid_json() {
    let body = r#"{"error":{"message":"Unauthorized","code":"auth_error"}}"#;
    let (msg, code) = parse_error_body(body);
    assert_eq!(msg, "Unauthorized");
    assert_eq!(code.as_deref(), Some("auth_error"));
}

#[test]
fn test_parse_error_body_empty() {
    let (msg, code) = parse_error_body("");
    assert_eq!(msg, "Unknown error");
    assert!(code.is_none());
}

#[test]
fn test_parse_error_body_plain_text() {
    let (msg, code) = parse_error_body("Internal Server Error");
    assert_eq!(msg, "Internal Server Error");
    assert!(code.is_none());
}

#[test]
fn test_urlencoding_encode() {
    assert_eq!(urlencoding_encode("abc-123_test.~"), "abc-123_test.~");
    assert_eq!(urlencoding_encode("key id"), "key%20id");
    assert_eq!(urlencoding_encode("key/id"), "key%2Fid");
}

#[test]
fn test_missing_api_key() {
    let result = SimpleLLM::with_config(
        ClientConfig {
            api_key: None,
            base_url: None,
            ..Default::default()
        },
        no_env(),
    );

    assert!(result.is_err());
    assert!(matches!(result.unwrap_err(), SimpleLlmError::MissingApiKey));
}

#[test]
fn error_body_top_level_fields() {
    let (msg, code) = parse_error_body(r#"{"message":"Rate limited","code":"rate_limit"}"#);
    assert_eq!(msg, "Rate limited");
    assert_eq!(code.as_deref(), Some("rate_limit"));
}

#[test]
fn error_body_nested_fields_win() {
    let (msg, code) =
        parse_error_body(r#"{"message":"outer","code":"c1","error":{"message":"inner","code":"c2"}}"#);
    assert_eq!(msg, "inner");
    assert_eq!(code.as_deref(), Some("c2"));
}

#[test]
fn error_body_json_without_message() {
    let (msg, code) = parse_error_body(r#"{"error":{"message":42}}"#);
    assert_eq!(msg, "Unknown error");
    assert!(code.is_none());
    let (msg, code) = parse_error_body("[1, 2, 3]");
    assert_eq!(msg, "Unknown error");
    assert!(code.is_none());
}

#[test]
fn error_body_mixed_sources() {
    let (msg, code) = parse_error_body(r#"{"error":{"code":"bad"},"message":"top"}"#);
    assert_eq!(msg, "top");
    assert_eq!(code.as_deref(), Some("bad"));
}

#[test]
fn api_error_keeps_status_and_fields() {
    let err = api_error(401, r#"{"error":{"message":"Unauthorized","code":"auth_error"}}"#);
    match err {
        SimpleLlmError::Api { status, code, message } => {
            assert_eq!(status, 401);
            assert_eq!(code.as_deref(), Some("auth_error"));
            assert_eq!(message, "Unauthorized");
        }
        other => panic!("Expected Api error, got: {:?}", other),
    }
}

#[test]
fn success_statuses() {
    assert!(is_success_status(200));
    assert!(is_success_status(204));
    assert!(is_success_status(299));
    assert!(!is_success_status(199));
    assert!(!is_success_status(300));
    assert!(!is_success_status(401));
    assert!(!is_success_status(500));
}

#[test]
fn urlencoding_non_ascii() {
    assert_eq!(urlencoding_encode("é"), "é");
    assert_eq!(urlencoding_encode("€"), "%20AC");
    assert_eq!(urlencoding_encode("\n"), "%0A");
    assert_eq!(urlencoding_encode("a%b"), "a%25b");
    assert_eq!(urlencoding_encode(""), "");
    assert_eq!(urlencoding_encode("?#&="), "%3F%23%26%3D");
}

#[test]
fn key_paths_encode_the_id() {
    assert_eq!(Endpoint::KeyUsage("key id".to_string()).path(), "/v1/keys/key%20id/usage");
    assert_eq!(
        Endpoint::KeyDailyUsage("a/b".to_string()).path(),
        "/v1/keys/a%2Fb/usage/daily"
    );
    assert_eq!(Endpoint::Models.path(), "/v1/models");
    assert_eq!(Endpoint::ChatCompletions.path(), "/v1/chat/completions");
    assert_eq!(Endpoint::KeyCurrentDailyUsage.path(), "/v1/keys/current/usage/daily");
    assert_eq!(Endpoint::ChatCompletions.method(), HttpMethod::Post);
    assert_eq!(Endpoint::AudioSpeech.method(), HttpMethod::Post);
    assert_eq!(Endpoint::Usage.method(), HttpMethod::Get);
    assert_eq!(Endpoint::KeyUsage("x".to_string()).method(), HttpMethod::Get);
}

#[test]
fn client_url_and_auth_header() {
    let client = SimpleLLM::with_config(
        ClientConfig {
            api_key: Some("test-key".to_string()),
            base_url: Some("http://127.0.0.1:8080//".to_string()),
            timeout: None,
        },
        no_env(),
    )
    .unwrap();
    assert_eq!(client.url("/v1/models"), "http://127.0.0.1:8080/v1/models");
    assert_eq!(client.auth_header(), "Bearer test-key");
}

#[test]
fn default_base_url_is_used() {
    let client = SimpleLLM::new("k".to_string(), no_env()).unwrap();
    assert_eq!(client.url("/v1/usage"), "https://api.simplellm.eu/v1/usage");
}

#[test]
fn environment_fills_in() {
    let env = Environment {
        api_key: Some("env-key".to_string()),
        base_url: Some("https://example.test/".to_string()),
    };
    let client = SimpleLLM::from_env(env).unwrap();
    assert_eq!(client.auth_header(), "Bearer env-key");
    assert_eq!(client.url("/x"), "https://example.test/x");
}

#[test]
fn empty_configured_key_falls_back_to_environment() {
    let env = Environment { api_key: Some("env-key".to_string()), base_url: None };
    let client = SimpleLLM::with_config(
        ClientConfig { api_key: Some(String::new()), base_url: None, timeout: None },
        env,
    )
    .unwrap();
    assert_eq!(client.auth_header(), "Bearer env-key");
    let env = Environment { api_key: Some(String::new()), base_url: None };
    let r = SimpleLLM::new(String::new(), env);
    assert!(matches!(r.unwrap_err(), SimpleLlmError::MissingApiKey));
}

#[test]
fn configured_values_win_over_environment() {
    let env = Environment {
        api_key: Some("env-key".to_string()),
        base_url: Some("https://env.test".to_string()),
    };
    let settings: ClientSettings = ClientConfig {
        api_key: Some("cfg-key".to_string()),
        base_url: Some("https://cfg.test/".to_string()),
        timeout: Some(Duration::from_secs(5)),
    }
    .resolve(env)
    .ok()
    .unwrap();
    assert_eq!(settings.api_key, "cfg-key");
    assert_eq!(settings.base_url, "https://cfg.test");
    assert_eq!(settings.timeout, Duration::from_secs(5));
}

#[test]
fn default_timeout_is_two_minutes() {
    let settings = ClientConfig {
        api_key: Some("k".to_string()),
        base_url: None,
        timeout: None,
    }
    .resolve(no_env())
    .ok()
    .unwrap();
    assert_eq!(settings.timeout, Duration::from_secs(120));
    assert_eq!(settings.base_url, "https://api.simplellm.eu");
}

#[test]
fn sse_lines_and_done() {
    let mut d = SseDecoder::new();
    d.feed(b"data: {\"a\":1}\n\n: keep-alive\nevent: x\ndata: {\"b\":2}\r\n");
    assert_eq!(data_of(d.next_action()), "{\"a\":1}");
    assert_eq!(data_of(d.next_action()), "{\"b\":2}");
    assert!(matches!(d.next_action(), SseAction::NeedMore));
    d.feed(b"data: [DONE]\ndata: late\n");
    assert!(matches!(d.next_action(), SseAction::Done));
}

#[test]
fn sse_chunk_boundaries_do_not_matter() {
    let mut d = SseDecoder::new();
    d.feed(b"da");
    assert!(matches!(d.next_action(), SseAction::NeedMore));
    d.feed(b"ta: hel");
    assert!(matches!(d.next_action(), SseAction::NeedMore));
    d.feed(b"lo\ndata: wor");
    assert_eq!(data_of(d.next_action()), "hello");
    assert!(matches!(d.next_action(), SseAction::NeedMore));
    d.feed(b"ld\n");
    assert_eq!(data_of(d.next_action()), "world");
    assert!(matches!(d.next_action(), SseAction::NeedMore));
}

#[test]
fn sse_prefix_needs_the_space() {
    let mut d = SseDecoder::new();
    d.feed(b"data:{\"a\":1}\n  data: padded  \n");
    assert_eq!(data_of(d.next_action()), "padded");
    assert!(matches!(d.next_action(), SseAction::NeedMore));
}

#[test]
fn sse_finish_reads_the_unterminated_line() {
    let mut d = SseDecoder::new();
    d.feed(b"data: last");
    assert!(matches!(d.next_action(), SseAction::NeedMore));
    assert_eq!(d.finish(), Some("last".to_string()));
    assert_eq!(d.finish(), None);
    let mut d = SseDecoder::new();
    d.feed(b"data: [DONE]");
    assert_eq!(d.finish(), None);
    let mut d = SseDecoder::new();
    d.feed(b"   ");
    assert_eq!(d.finish(), None);
}

#[test]
fn sse_invalid_utf8_becomes_replacement_character() {
    let mut d = SseDecoder::new();
    d.feed(&[b'd', b'a', b't', b'a', b':', b' ', 0xFF, b'x', b'\n']);
    assert_eq!(data_of(d.next_action()), "\u{FFFD}x");
}

#[test]
fn transcription_form_fields_in_order() {
    let form = transcription_form(
        "rec.mp3".to_string(),
        Some("whisper-large-v3".to_string()),
        None,
        Some("hello".to_string()),
        None,
        Some("0.5".to_string()),
    );
    assert_eq!(form.file_field, "file");
    assert_eq!(form.file_name, "rec.mp3");
    assert_eq!(form.mime, "audio/mpeg");
    assert_eq!(
        form.text_fields,
        vec![
            ("model".to_string(), "whisper-large-v3".to_string()),
            ("prompt".to_string(), "hello".to_string()),
            ("temperature".to_string(), "0.5".to_string()),
        ]
    );
}
