use desk_core::chat::{build_chat_body, chat_request, endpoint_for};
use desk_core::errors::CommandError;

#[test]
fn endpoint_openrouter() {
    let url = endpoint_for("openrouter").unwrap();
    assert_eq!(url, "https://openrouter.ai/api/v1/chat/completions");
}

#[test]
fn endpoint_groq() {
    let url = endpoint_for("groq").unwrap();
    assert_eq!(url, "https://api.groq.com/openai/v1/chat/completions");
}

#[test]
fn endpoint_unknown_is_none() {
    assert!(endpoint_for("unknown").is_none());
    assert!(endpoint_for("").is_none());
    assert!(endpoint_for("openrouter ").is_none());
}

#[test]
fn chat_request_unknown_provider_is_rejected() {
    let r = chat_request("unknown", "some-model", "hello", "test-key");
    match r {
        Err(CommandError::UnsupportedProviderError(msg)) => {
            assert_eq!(msg, "Unsupported provider");
        }
        _ => panic!("expected an unsupported-provider failure"),
    }
}

#[test]
fn chat_request_known_provider_assembles_everything() {
    let req = chat_request("groq", "m", "hi", "key").unwrap();
    assert_eq!(req.url, "https://api.groq.com/openai/v1/chat/completions");
    assert_eq!(req.auth, "Bearer key");
    assert_eq!(
        req.body,
        "{\"model\":\"m\",\"messages\":[{\"role\":\"user\",\"content\":\"hi\"}]}"
    );
}

#[test]
fn body_plain_text() {
    let body = build_chat_body("gpt-4", "hello world");
    assert_eq!(
        body,
        "{\"model\":\"gpt-4\",\"messages\":[{\"role\":\"user\",\"content\":\"hello world\"}]}"
    );
}

#[test]
fn body_empty_message() {
    let body = build_chat_body("m", "");
    assert_eq!(
        body,
        "{\"model\":\"m\",\"messages\":[{\"role\":\"user\",\"content\":\"\"}]}"
    );
}

#[test]
fn body_escapes_quotes_and_backslashes() {
    let body = build_chat_body("m", "say \"hi\" \\ done");
    assert_eq!(
        body,
        "{\"model\":\"m\",\"messages\":[{\"role\":\"user\",\"content\":\"say \\\"hi\\\" \\\\ done\"}]}"
    );
}

#[test]
fn body_escapes_control_characters() {
    let body = build_chat_body("m", "a\nb\tc\u{1f}");
    assert_eq!(
        body,
        "{\"model\":\"m\",\"messages\":[{\"role\":\"user\",\"content\":\"a\\u000ab\\u0009c\\u001f\"}]}"
    );
}

#[test]
fn body_keeps_non_ascii_text() {
    let body = build_chat_body("m", "héllo ∞");
    assert_eq!(
        body,
        "{\"model\":\"m\",\"messages\":[{\"role\":\"user\",\"content\":\"héllo ∞\"}]}"
    );
}

#[test]
fn body_is_the_json_serde_reads_back() {
    let body = build_chat_body("the-model", "line1\nline2 \"quoted\" \\ end");
    let v: serde_json::Value = serde_json::from_str(&body).unwrap();
    assert_eq!(v["model"], "the-model");
    assert_eq!(v["messages"][0]["role"], "user");
    assert_eq!(v["messages"][0]["content"], "line1\nline2 \"quoted\" \\ end");
}
