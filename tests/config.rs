use codex_translate::config::{default_provider, default_target_language, TranslationConfig};
use codex_translate::provider::ProviderId;

#[test]
fn translation_config_should_translate() {
    let config = TranslationConfig {
        enabled: true,
        target_language: "zh-CN".to_string(),
        ..Default::default()
    };

    assert!(config.should_translate());

    let disabled = TranslationConfig {
        enabled: false,
        ..config
    };
    assert!(!disabled.should_translate());
}

#[test]
fn translation_config_effective_values() {
    let config = TranslationConfig {
        provider: "openai".to_string(),
        api_key: Some("sk-xxx".to_string()),
        model: None,
        base_url: None,
        ..Default::default()
    };

    assert_eq!(config.effective_provider(), ProviderId::OpenAI);
    assert_eq!(config.effective_api_key(), Some("sk-xxx"));

    let provider_def = config.effective_provider().definition();
    assert_eq!(config.effective_model(&provider_def), "gpt-4o-mini");
    assert_eq!(
        config.effective_base_url(&provider_def),
        "https://api.openai.com/v1"
    );
}

#[test]
fn translation_config_is_valid() {
    // Config with API key for provider that requires it
    let valid_config = TranslationConfig {
        provider: "openai".to_string(),
        api_key: Some("sk-xxx".to_string()),
        ..Default::default()
    };
    assert!(valid_config.is_valid());

    // Config without API key for provider that requires it
    let invalid_config = TranslationConfig {
        provider: "openai".to_string(),
        api_key: None,
        ..Default::default()
    };
    assert!(!invalid_config.is_valid());

    // Ollama doesn't require API key
    let ollama_config = TranslationConfig {
        provider: "ollama".to_string(),
        api_key: None,
        ..Default::default()
    };
    assert!(ollama_config.is_valid());
}

#[test]
fn config_defaults() {
    let c = TranslationConfig::default();
    assert!(!c.enabled);
    assert_eq!(c.target_language, "zh-CN");
    assert_eq!(c.provider, "deepseek");
    assert_eq!(default_target_language(), "zh-CN");
    assert_eq!(default_provider(), "deepseek");
    assert_eq!(c.effective_timeout_ms(), 30000);
    assert_eq!(TranslationConfig { timeout_ms: Some(15000), ..Default::default() }.effective_timeout_ms(), 15000);
}

#[test]
fn empty_settings_fall_back() {
    let c = TranslationConfig {
        provider: "Unknown-Provider".to_string(),
        api_key: Some(String::new()),
        model: Some(String::new()),
        base_url: Some("http://proxy".to_string()),
        ..Default::default()
    };
    assert_eq!(c.effective_provider(), ProviderId::DeepSeek);
    assert_eq!(c.effective_api_key(), None);
    assert!(!c.has_api_key());
    let def = c.effective_provider().definition();
    assert_eq!(c.effective_model(&def), "deepseek-chat");
    assert_eq!(c.effective_base_url(&def), "http://proxy");
    assert!(!c.is_valid());
}
