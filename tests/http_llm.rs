use localtype::config::ApiFormat;

/// The configured default model of the messages service.
const MESSAGES_DEFAULT_MODEL: &str = "messages-default";
use localtype::http_llm::{
    body_excerpt, classify_http_failure, HttpFailure, HttpLlmProcessor, PathStep,
    GEMINI_API_DEFAULT_MODEL, OPENAI_DEFAULT_MODEL,
};

/// Follows the processor's response path through a parsed document.
fn extract_response(processor: &HttpLlmProcessor, json: &serde_json::Value) -> Option<String> {
    let mut node = json;
    for step in processor.response_path() {
        node = match step {
            PathStep::Key(k) => node.get(k.as_str())?,
            PathStep::Index(i) => node.get(i)?,
        };
    }
    node.as_str().map(str::to_string)
}

#[test]
fn test_openai_constructor() {
    let processor = HttpLlmProcessor::openai("test-key".to_string(), None);
    assert_eq!(processor.model(), OPENAI_DEFAULT_MODEL);
    assert_eq!(processor.base_url(), "https://api.openai.com/v1");
}

#[test]
fn test_claude_constructor() {
    let processor = HttpLlmProcessor::claude("test-key".to_string(), None, MESSAGES_DEFAULT_MODEL);
    assert_eq!(processor.model(), MESSAGES_DEFAULT_MODEL);
    assert_eq!(processor.base_url(), "https://api.anthropic.com");
}

#[test]
fn test_gemini_api_constructor() {
    let processor = HttpLlmProcessor::gemini_api("test-key".to_string(), None);
    assert_eq!(processor.model(), GEMINI_API_DEFAULT_MODEL);
}

#[test]
fn test_custom_constructor() {
    let processor = HttpLlmProcessor::custom(
        "http://localhost:11434/v1".to_string(),
        "".to_string(),
        Some("llama3".to_string()),
    );
    assert_eq!(processor.model(), "llama3");
    assert_eq!(processor.base_url(), "http://localhost:11434/v1");
}

#[test]
fn test_model_override() {
    let processor = HttpLlmProcessor::openai("key".to_string(), Some("gpt-4o".to_string()));
    assert_eq!(processor.model(), "gpt-4o");
}

#[test]
fn test_empty_model_uses_default() {
    let processor = HttpLlmProcessor::openai("key".to_string(), Some("".to_string()));
    assert_eq!(processor.model(), OPENAI_DEFAULT_MODEL);
}

#[test]
fn test_health_check_with_key() {
    let processor = HttpLlmProcessor::openai("sk-test".to_string(), None);
    assert!(processor.health_check());
}

#[test]
fn test_health_check_without_key() {
    let processor = HttpLlmProcessor::openai("".to_string(), None);
    assert!(!processor.health_check());
}

#[test]
fn test_extract_openai_response() {
    let processor = HttpLlmProcessor::openai("key".to_string(), None);
    let json: serde_json::Value =
        serde_json::from_str(r#"{"choices": [{"message": {"content": "Hello world"}}]}"#).unwrap();
    assert_eq!(extract_response(&processor, &json).unwrap(), "Hello world");
}

#[test]
fn test_extract_claude_response() {
    let processor = HttpLlmProcessor::claude("key".to_string(), None, MESSAGES_DEFAULT_MODEL);
    let json: serde_json::Value =
        serde_json::from_str(r#"{"content": [{"type": "text", "text": "Hello world"}]}"#).unwrap();
    assert_eq!(extract_response(&processor, &json).unwrap(), "Hello world");
}

#[test]
fn test_extract_gemini_response() {
    let processor = HttpLlmProcessor::gemini_api("key".to_string(), None);
    let json: serde_json::Value = serde_json::from_str(
        r#"{"candidates": [{"content": {"parts": [{"text": "Hello world"}]}}]}"#,
    )
    .unwrap();
    assert_eq!(extract_response(&processor, &json).unwrap(), "Hello world");
}

#[test]
fn openai_request_is_valid_json() {
    let p = HttpLlmProcessor::openai("k1".to_string(), None);
    let req = p.build_request("say \"hi\"\n").unwrap();
    assert_eq!(req.url, "https://api.openai.com/v1/chat/completions");
    assert_eq!(req.headers, vec![("Authorization".to_string(), "Bearer k1".to_string())]);
    let body: serde_json::Value = serde_json::from_str(&req.body).unwrap();
    assert_eq!(body["model"], "gpt-4o-mini");
    assert_eq!(body["messages"][1]["content"], "say \"hi\"\n");
    assert_eq!(body["messages"][0]["role"], "system");
}

#[test]
fn claude_and_gemini_requests() {
    let c = HttpLlmProcessor::claude("k2".to_string(), None, MESSAGES_DEFAULT_MODEL).build_request("x").unwrap();
    assert_eq!(c.url, "https://api.anthropic.com/v1/messages");
    assert_eq!(c.headers.len(), 3);
    let body: serde_json::Value = serde_json::from_str(&c.body).unwrap();
    assert_eq!(body["max_tokens"], 4096);
    let g = HttpLlmProcessor::gemini_api("k3".to_string(), None).build_request("y").unwrap();
    assert_eq!(
        g.url,
        "https://generativelanguage.googleapis.com/v1beta/models/gemini-2.0-flash:generateContent?key=k3"
    );
    assert!(g.headers.is_empty());
    let body: serde_json::Value = serde_json::from_str(&g.body).unwrap();
    assert_eq!(body["contents"][0]["parts"][0]["text"], "y");
    assert_eq!(HttpLlmProcessor::gemini_api("k".to_string(), None).api_format(), ApiFormat::GeminiApi);
}

#[test]
fn reply_keys_in_order() {
    assert_eq!(localtype::http_llm::cli_reply_keys(), vec!["text", "content", "response"]);
}

#[test]
fn http_failures() {
    assert_eq!(classify_http_failure(401), HttpFailure::Authentication);
    assert_eq!(classify_http_failure(429), HttpFailure::RateLimited);
    assert_eq!(classify_http_failure(500), HttpFailure::Server);
    assert_eq!(classify_http_failure(599), HttpFailure::Server);
    assert_eq!(classify_http_failure(404), HttpFailure::Other);
    assert_eq!(body_excerpt("short"), "short");
    assert_eq!(body_excerpt(&"é".repeat(250)).chars().count(), 200);
}
