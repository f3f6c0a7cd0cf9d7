use codex_translate::client::{build_translation_prompt, endpoint_url, TranslationClient, TranslationError};
use codex_translate::config::TranslationConfig;

#[test]
fn build_prompt() {
    let prompt = build_translation_prompt("Hello, world!", "Chinese");
    assert!(prompt.contains("Chinese"));
    assert!(prompt.contains("Hello, world!"));
    assert!(prompt.contains("markdown"));
}

#[test]
fn prompt_exact_text() {
    assert_eq!(
        build_translation_prompt("X", "ja"),
        "Translate the following text to ja. Keep the original formatting (markdown, code blocks, etc.). Output only the translation, nothing else.\n\nX"
    );
}

#[test]
fn error_display() {
    let err = TranslationError::ApiKeyNotFound("DeepSeek".to_string());
    assert!(err.message().contains("DeepSeek"));

    let err = TranslationError::Timeout;
    assert!(err.message().contains("timeout"));

    let err = TranslationError::Api {
        status: 401,
        message: "Unauthorized".to_string(),
    };
    assert!(err.message().contains("401"));
    assert!(err.message().contains("Unauthorized"));
}

#[test]
fn error_messages_exact() {
    assert_eq!(TranslationError::Api { status: 401, message: "Unauthorized".to_string() }.message(), "API error (401): Unauthorized");
    assert_eq!(TranslationError::Parse("Empty response".to_string()).message(), "Parse error: Empty response");
    assert_eq!(TranslationError::ApiKeyNotFound("Gemini".to_string()).message(), "API key not configured for Gemini");
}

#[test]
fn client_requires_key() {
    let config = TranslationConfig { provider: "openai".to_string(), ..Default::default() };
    match TranslationClient::from_config(&config) {
        Err(TranslationError::ApiKeyNotFound(name)) => assert_eq!(name, "OpenAI"),
        _ => panic!("expected a missing key"),
    }
}

#[test]
fn client_settings() {
    let config = TranslationConfig {
        provider: "ollama".to_string(),
        model: Some("qwen2".to_string()),
        timeout_ms: Some(1234),
        ..Default::default()
    };
    let client = match TranslationClient::from_config(&config) {
        Ok(c) => c,
        Err(e) => panic!("{}", e.message()),
    };
    assert_eq!(client.base_url(), "http://localhost:11434/v1");
    assert_eq!(client.model(), "qwen2");
    assert_eq!(client.api_key(), None);
    assert_eq!(client.timeout_ms(), 1234);
    assert_eq!(client.provider().name, "Ollama");
}

#[test]
fn endpoint_urls() {
    assert_eq!(endpoint_url("https://api.x/v1//", "/chat/completions"), "https://api.x/v1/chat/completions");
    assert_eq!(endpoint_url("https://api.x/v1", "/messages"), "https://api.x/v1/messages");
}
