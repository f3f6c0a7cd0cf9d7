use codex_translate::config::TranslationConfig;
use codex_translate::keys::{KeyCode, KeyEvent, KeyEventKind, KeyModifiers};
use codex_translate::provider::ProviderId;
use codex_translate::translate_overlay::{
    text_input_display, InputMode, KeyStatus, OverlayEvent, Selection, TargetLanguage, TranslateOverlay,
};

fn key(code: KeyCode) -> OverlayEvent {
    OverlayEvent::Key(KeyEvent::new(code, KeyModifiers::none()))
}

#[test]
fn overlay_reads_config() {
    let config = TranslationConfig {
        enabled: true,
        target_language: "ja".to_string(),
        provider: "openai".to_string(),
        api_key: Some("sk-abc".to_string()),
        ..Default::default()
    };
    let o = TranslateOverlay::new(&config);
    assert!(o.enabled());
    assert_eq!(o.provider_id(), ProviderId::OpenAI);
    assert_eq!(o.language(), TargetLanguage::Japanese);
    assert_eq!(o.api_key(), "sk-abc");
    assert_eq!(o.selection(), Selection::Enabled);
    let back = o.config();
    assert!(back.enabled);
    assert_eq!(back.target_language, "ja");
    assert_eq!(back.provider, "openai");
    assert_eq!(back.api_key.as_deref(), Some("sk-abc"));
    assert_eq!(back.model, None);
    assert_eq!(o.api_key_status(), KeyStatus::Configured);
}

#[test]
fn navigation_toggle_and_adjust() {
    let mut o = TranslateOverlay::new(&TranslationConfig::default());
    o.handle_event(key(KeyCode::Char(' ')));
    assert!(o.enabled() && o.is_modified());
    o.handle_event(key(KeyCode::Down));
    assert_eq!(o.selection(), Selection::Provider);
    o.handle_event(key(KeyCode::Right));
    assert_eq!(o.provider_id(), ProviderId::Moonshot);
    o.handle_event(key(KeyCode::Left));
    o.handle_event(key(KeyCode::Left));
    o.handle_event(key(KeyCode::Left));
    assert_eq!(o.provider_id(), ProviderId::OpenAI);
    o.handle_event(key(KeyCode::Left));
    assert_eq!(o.provider_id(), ProviderId::SiliconFlow);
    o.handle_event(key(KeyCode::Up));
    o.handle_event(key(KeyCode::Up));
    assert_eq!(o.selection(), Selection::BaseUrl);
    o.handle_event(key(KeyCode::Up));
    assert_eq!(o.selection(), Selection::Language);
    o.handle_event(key(KeyCode::Left));
    assert_eq!(o.language(), TargetLanguage::Thai);
    let r = o.handle_event(key(KeyCode::Char('s')));
    assert!(r.save);
    o.set_save_result(Some("disk full".to_string()));
    assert_eq!(o.status_message(), Some("Failed to save: disk full"));
    o.set_save_result(None);
    assert_eq!(o.status_message(), Some("Configuration saved"));
    o.handle_event(key(KeyCode::Char('q')));
    assert!(o.is_done());
}

#[test]
fn editing_a_text_field() {
    let mut o = TranslateOverlay::new(&TranslationConfig::default());
    o.handle_event(key(KeyCode::Down));
    o.handle_event(key(KeyCode::Down));
    o.handle_event(key(KeyCode::Down));
    assert_eq!(o.selection(), Selection::Model);
    o.handle_event(key(KeyCode::Enter));
    assert_eq!(o.input_mode(), InputMode::Editing);
    for c in "gpt".chars() {
        o.handle_event(key(KeyCode::Char(c)));
    }
    o.handle_event(key(KeyCode::Home));
    o.handle_event(key(KeyCode::Char('x')));
    assert_eq!(o.model(), "xgpt");
    o.handle_event(key(KeyCode::Delete));
    assert_eq!(o.model(), "xpt");
    o.handle_event(key(KeyCode::Backspace));
    assert_eq!(o.model(), "pt");
    assert_eq!(o.cursor_position(), 0);
    o.handle_event(key(KeyCode::End));
    o.handle_event(OverlayEvent::Paste("-4\r\no\tmini".to_string()));
    assert_eq!(o.model(), "pt-4omini");
    assert_eq!(o.cursor_position(), 9);
    o.handle_event(key(KeyCode::Left));
    o.handle_event(key(KeyCode::Right));
    o.handle_event(key(KeyCode::Right));
    assert_eq!(o.cursor_position(), 9);
    let release = KeyEvent { code: KeyCode::Char('z'), modifiers: KeyModifiers::none(), kind: KeyEventKind::Release };
    o.handle_event(OverlayEvent::Key(release));
    assert_eq!(o.model(), "pt-4omini");
    o.handle_event(key(KeyCode::Enter));
    assert_eq!(o.input_mode(), InputMode::Normal);
    assert_eq!(o.config().model.as_deref(), Some("pt-4omini"));
    let r = o.handle_event(OverlayEvent::Paste("ignored".to_string()));
    assert!(!r.schedule_frame);
    assert_eq!(o.model(), "pt-4omini");
    assert!(o.handle_event(OverlayEvent::Draw).draw);
}

#[test]
fn masking() {
    assert_eq!(TranslateOverlay::mask_api_key("abc"), "***");
    assert_eq!(TranslateOverlay::mask_api_key("12345678"), "********");
    assert_eq!(TranslateOverlay::mask_api_key("sk-1234567890"), "sk-1...7890");
    assert_eq!(text_input_display("", true, false), "(not set)");
    assert_eq!(text_input_display("sk-1234567890", true, true), "sk-1234567890");
    assert_eq!(text_input_display("sk-1234567890", true, false), "sk-1...7890");
    assert_eq!(text_input_display("url", false, false), "url");
}

#[test]
fn languages() {
    assert_eq!(TargetLanguage::from_code("zh-TW"), Some(TargetLanguage::ChineseTraditional));
    assert_eq!(TargetLanguage::from_code("xx"), None);
    assert_eq!(TargetLanguage::Korean.code(), "ko");
    assert_eq!(TargetLanguage::Korean.name(), "Korean");
    assert_eq!(Selection::BaseUrl.next(), Selection::Enabled);
    assert_eq!(Selection::Enabled.prev(), Selection::BaseUrl);
    let o = TranslateOverlay::new(&TranslationConfig { provider: "ollama".to_string(), ..Default::default() });
    assert_eq!(o.api_key_status(), KeyStatus::NoKeyNeeded);
    assert_eq!(KeyStatus::Required.label(), "✗ Key Required");
}
