use typr::json::JsonValue;
use typr::transcribe_openrouter::{
    api_for_model, build_request, chat_request_body, check_api_key, encode_audio,
    extract_audio_transcript, extract_chat_transcript, extract_transcript_from_text,
    parse_transcript_json, strip_json_code_fence, transcript_from_text_parsed,
    transcription_request_body, OpenRouterApi,
};

fn to_json(v: serde_json::Value) -> JsonValue {
    match v {
        serde_json::Value::Null => JsonValue::Null,
        serde_json::Value::Bool(b) => JsonValue::Bool(b),
        serde_json::Value::Number(n) => JsonValue::Number(n.to_string()),
        serde_json::Value::String(s) => JsonValue::Str(s),
        serde_json::Value::Array(xs) => JsonValue::Array(xs.into_iter().map(to_json).collect()),
        serde_json::Value::Object(m) => {
            JsonValue::Object(m.into_iter().map(|(k, v)| (k, to_json(v))).collect())
        }
    }
}

fn from_json(v: &JsonValue) -> serde_json::Value {
    match v {
        JsonValue::Null => serde_json::Value::Null,
        JsonValue::Bool(b) => serde_json::Value::Bool(*b),
        JsonValue::Number(n) => serde_json::from_str(n).unwrap(),
        JsonValue::Str(s) => serde_json::Value::String(s.clone()),
        JsonValue::Array(xs) => serde_json::Value::Array(xs.iter().map(from_json).collect()),
        JsonValue::Object(ms) => serde_json::Value::Object(
            ms.iter().map(|(k, v)| (k.clone(), from_json(v))).collect(),
        ),
    }
}

#[test]
fn test_empty_api_key() {
    let result = check_api_key("");
    assert!(result.is_err());
    assert!(result.unwrap_err().contains("API key not set"));
    assert!(check_api_key("  ").is_err());
    assert!(check_api_key("sk-1").is_ok());
}

#[test]
fn test_extract_transcript_from_string() {
    let json = serde_json::from_str::<serde_json::Value>(
        r#"{"choices": [{"message": {"content": "{\"transcript\":\"hello world\"}"}}]}"#,
    )
    .unwrap();
    assert_eq!(extract_chat_transcript(&to_json(json)).unwrap(), "hello world");
}

#[test]
fn test_extract_transcript_from_parts() {
    let json = serde_json::from_str::<serde_json::Value>(
        r#"{"choices": [{"message": {"content": [{"type": "text", "text": "{\"transcript\":\"hello world\"}"}]}}]}"#,
    )
    .unwrap();
    assert_eq!(extract_chat_transcript(&to_json(json)).unwrap(), "hello world");
}

#[test]
fn test_extract_transcript_from_fenced_json() {
    let json = serde_json::from_str::<serde_json::Value>(
        r#"{"choices": [{"message": {"content": "```json\n{\"transcript\":\"hello world\"}\n```"}}]}"#,
    )
    .unwrap();
    assert_eq!(extract_chat_transcript(&to_json(json)).unwrap(), "hello world");
}

#[test]
fn plain_text_and_missing_content() {
    let json = serde_json::from_str::<serde_json::Value>(
        r#"{"choices": [{"message": {"content": "  just words  "}}]}"#,
    )
    .unwrap();
    assert_eq!(extract_chat_transcript(&to_json(json)).unwrap(), "just words");
    let json = serde_json::from_str::<serde_json::Value>(
        r#"{"choices": [{"message": {"content": "   "}}]}"#,
    )
    .unwrap();
    assert_eq!(extract_chat_transcript(&to_json(json)).unwrap_err(), "OpenRouter returned an empty transcript");
    let json = serde_json::from_str::<serde_json::Value>(r#"{"choices": []}"#).unwrap();
    assert_eq!(
        extract_chat_transcript(&to_json(json)).unwrap_err(),
        "No transcript text found in OpenRouter response"
    );
    let json = serde_json::from_str::<serde_json::Value>(
        r#"{"choices": [{"message": {"content": [{"type": "image", "text": "no"}, {"type": "text", "text": "a"}, {"type": "text", "text": "b"}]}}]}"#,
    )
    .unwrap();
    assert_eq!(extract_chat_transcript(&to_json(json)).unwrap(), "ab");
}

#[test]
fn code_fences() {
    assert_eq!(strip_json_code_fence("```json\n{}\n```"), Some("{}"));
    assert_eq!(strip_json_code_fence("```json```"), Some(""));
    assert_eq!(strip_json_code_fence("```json``"), None);
    assert_eq!(strip_json_code_fence("```\n{}\n```"), None);
}

#[test]
fn test_models_route_to_their_supported_api() {
    assert_eq!(api_for_model("openai/whisper-large-v3"), OpenRouterApi::Transcriptions);
    assert_eq!(api_for_model("openai/whisper-large-v3-turbo"), OpenRouterApi::Transcriptions);
    assert_eq!(
        api_for_model("google/gemini-3.1-flash-lite-preview"),
        OpenRouterApi::ChatCompletions
    );
}

#[test]
fn test_transcription_request_uses_openrouter_audio_contract() {
    let body = from_json(&transcription_request_body("openai/whisper-large-v3", "d2F2"));
    assert_eq!(body["model"], "openai/whisper-large-v3");
    assert_eq!(body["input_audio"]["data"], "d2F2");
    assert_eq!(body["input_audio"]["format"], "wav");
    assert_eq!(body["temperature"], 0);
}

#[test]
fn chat_request_shape() {
    let body = from_json(&chat_request_body("google/gemini-3.1-flash-lite-preview", "d2F2"));
    assert_eq!(body["stream"], false);
    assert_eq!(body["provider"]["require_parameters"], true);
    assert_eq!(body["response_format"]["json_schema"]["schema"]["required"][0], "transcript");
    assert_eq!(body["plugins"][0]["id"], "response-healing");
    assert_eq!(body["messages"][0]["role"], "system");
    assert_eq!(body["messages"][1]["content"][1]["input_audio"]["data"], "d2F2");
}

#[test]
fn test_extract_audio_transcript() {
    let json = to_json(serde_json::from_str(r#"{ "text": " hello world " }"#).unwrap());
    assert_eq!(extract_audio_transcript(&json).unwrap(), "hello world");
}

#[test]
fn test_extract_audio_transcript_rejects_empty_text() {
    let json = to_json(serde_json::from_str(r#"{ "text": "  " }"#).unwrap());
    assert!(extract_audio_transcript(&json).is_err());
}

#[test]
fn audio_travels_in_base64() {
    assert_eq!(encode_audio(b"wav"), "d2F2");
    assert_eq!(encode_audio(b"wa"), "d2E=");
    assert_eq!(encode_audio(b""), "");
    let req = build_request(" sk-key ", "  ", b"wav");
    assert_eq!(req.api, OpenRouterApi::ChatCompletions);
    assert_eq!(req.url, "https://openrouter.ai/api/v1/chat/completions");
    assert_eq!(req.headers[0], ("Authorization".to_string(), "Bearer sk-key".to_string()));
    let body = from_json(&req.body);
    assert_eq!(body["model"], "google/gemini-3.1-flash-lite-preview");
    let req = build_request("k", " openai/whisper-large-v3 ", b"wa");
    assert_eq!(req.api, OpenRouterApi::Transcriptions);
    assert_eq!(from_json(&req.body)["input_audio"]["data"], "d2E=");
}

#[test]
fn transcript_json_is_parsed() {
    assert_eq!(parse_transcript_json(r#"{"transcript": "  hi there "}"#), Some("hi there".to_string()));
    assert_eq!(parse_transcript_json(r#"{"transcript": "   "}"#), None);
    assert_eq!(parse_transcript_json(r#"{"transcript": 3}"#), None);
    assert_eq!(parse_transcript_json(r#"{"text": "hi"}"#), None);
    assert_eq!(parse_transcript_json("not json"), None);
    assert_eq!(parse_transcript_json(r#"["transcript"]"#), None);
}

#[test]
fn transcript_from_reply_text() {
    assert_eq!(
        extract_transcript_from_text(r#"  {"transcript": "hello"}  "#).unwrap(),
        "hello"
    );
    assert_eq!(
        extract_transcript_from_text("```json\n{\"transcript\": \" fenced \"}\n```").unwrap(),
        "fenced"
    );
    assert_eq!(extract_transcript_from_text(r#"{"other": 1}"#).unwrap(), r#"{"other": 1}"#);
    assert_eq!(extract_transcript_from_text("```json\nnope\n```").unwrap(), "```json\nnope\n```");
    assert_eq!(extract_transcript_from_text(" plain words ").unwrap(), "plain words");
    assert_eq!(
        extract_transcript_from_text(" \n ").unwrap_err(),
        "OpenRouter returned an empty transcript"
    );
}

#[test]
fn transcript_from_parsed_values() {
    let whole = JsonValue::Object(vec![(
        "transcript".to_string(),
        JsonValue::Str(" given ".to_string()),
    )]);
    assert_eq!(transcript_from_text_parsed("anything", Some(&whole), None).unwrap(), "given");
    assert_eq!(transcript_from_text_parsed(" anything ", None, Some(&whole)).unwrap(), "anything");
    assert_eq!(
        transcript_from_text_parsed("```json x ```", None, Some(&whole)).unwrap(),
        "given"
    );
    assert_eq!(transcript_from_text_parsed("  ", Some(&whole), None).unwrap_err(),
        "OpenRouter returned an empty transcript");
}
