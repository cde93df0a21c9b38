use vrc_companion::integrations::eliza::{
    chat_request_body, translate_request_body, ElizaClient, ElizaFailure,
};

#[test]
fn eliza_test_chat_endpoint_strips_trailing_slash() {
    let client = vrc_companion::eliza::ElizaClient::new("http://localhost:9096/".to_string());
    assert_eq!(client.chat_endpoint(), "http://localhost:9096/chat");
}

#[test]
fn test_chat_endpoint_strips_trailing_slash() {
    let client = ElizaClient::new("http://localhost:9096/".to_string());
    assert_eq!(
        client.chat_endpoint(),
        "http://localhost:9096/eliza/api/chat"
    );
}

#[test]
fn test_translate_endpoint_strips_trailing_slash() {
    let client = ElizaClient::new("http://localhost:9096/".to_string());
    assert_eq!(
        client.translate_endpoint(),
        "http://localhost:9096/eliza/api/translate"
    );
}

#[test]
fn test_chat_request_serialization() {
    let json = chat_request_body("こんにちは");
    assert_eq!(
        json,
        r#"{"messages":[{"role":"user","content":"こんにちは"}]}"#
    );
}

#[test]
fn eliza_test_chat_request_serialization() {
    let json = chat_request_body("こんにちは");
    assert_eq!(
        json,
        r#"{"messages":[{"role":"user","content":"こんにちは"}]}"#
    );
}

#[test]
fn test_translate_request_serialization() {
    let json = translate_request_body("日本語", "英語", "こんにちわ");
    assert_eq!(
        json,
        r#"{"source_lang":"日本語","target_lang":"英語","text":"こんにちわ"}"#
    );
}

#[test]
fn endpoints_without_and_with_many_trailing_slashes() {
    let plain = ElizaClient::new("http://example.com:9096".to_string());
    let slashes = ElizaClient::new("http://example.com:9096///".to_string());
    assert_eq!(plain.chat_endpoint(), "http://example.com:9096/eliza/api/chat");
    assert_eq!(plain.chat_endpoint(), slashes.chat_endpoint());
    assert_eq!(plain.translate_endpoint(), slashes.translate_endpoint());

    let legacy = vrc_companion::eliza::ElizaClient::new("http://h//".to_string());
    assert_eq!(legacy.chat_endpoint(), "http://h/chat");

    let empty = ElizaClient::new("/".to_string());
    assert_eq!(empty.chat_endpoint(), "/eliza/api/chat");
}

#[test]
fn request_bodies_escape_json_specials() {
    let json = chat_request_body("say \"hi\"\n\\");
    assert_eq!(
        json,
        r#"{"messages":[{"role":"user","content":"say \"hi\"\n\\"}]}"#
    );
    let parsed: serde_json::Value = serde_json::from_str(&json).unwrap();
    assert_eq!(parsed["messages"][0]["content"], "say \"hi\"\n\\");

    let json = translate_request_body("a\"b", "", "\t");
    assert_eq!(json, r#"{"source_lang":"a\"b","target_lang":"","text":"\t"}"#);
}

#[test]
fn failure_messages_per_stage() {
    let send = ElizaFailure::Send("refused".to_string());
    assert_eq!(send.chat_message(), "Failed to send to eliza: refused");
    assert_eq!(
        send.translate_message(),
        "Failed to send translate request to eliza: refused"
    );
    let read = ElizaFailure::Read("eof".to_string());
    assert_eq!(read.chat_message(), "Failed to read eliza response: eof");
    assert_eq!(
        read.translate_message(),
        "Failed to read eliza translate response: eof"
    );
    let parse = ElizaFailure::Parse {
        error: "expected value".to_string(),
        body: "oops".to_string(),
    };
    assert_eq!(
        parse.chat_message(),
        "Failed to parse eliza response: expected value. Body was: oops"
    );
    assert_eq!(
        parse.translate_message(),
        "Failed to parse eliza translate response: expected value. Body was: oops"
    );
}

#[test]
fn control_characters_escape_as_lowercase_hex() {
    let json = translate_request_body("\u{1}\u{1f}", "\u{8}\u{c}\r", "\u{7f}é");
    assert_eq!(
        json,
        "{\"source_lang\":\"\\u0001\\u001f\",\"target_lang\":\"\\b\\f\\r\",\"text\":\"\u{7f}é\"}"
    );
}
