use codex_translate::provider::{providers, Protocol, ProviderId};

#[test]
fn provider_id_from_str() {
    assert_eq!(ProviderId::from_str("openai"), Some(ProviderId::OpenAI));
    assert_eq!(ProviderId::from_str("DEEPSEEK"), Some(ProviderId::DeepSeek));
    assert_eq!(ProviderId::from_str("zhipu"), Some(ProviderId::ZhipuAI));
    assert_eq!(ProviderId::from_str("unknown"), None);
}

#[test]
fn provider_id_as_str() {
    assert_eq!(ProviderId::OpenAI.as_str(), "openai");
    assert_eq!(ProviderId::DeepSeek.as_str(), "deepseek");
}

#[test]
fn provider_definition() {
    let def = ProviderId::DeepSeek.definition();
    assert_eq!(def.name, "DeepSeek");
    assert!(def.requires_api_key);
    assert_eq!(def.protocol, Protocol::OpenAI);
}

#[test]
fn provider_count() {
    assert_eq!(ProviderId::all().len(), providers().len());
}

#[test]
fn aliases_and_case() {
    assert_eq!(ProviderId::from_str("Google"), Some(ProviderId::Gemini));
    assert_eq!(ProviderId::from_str("dashscope"), Some(ProviderId::Qwen));
    assert_eq!(ProviderId::from_str("Together"), Some(ProviderId::TogetherAI));
    assert_eq!(ProviderId::from_lowercase_name("OpenAI"), None);
    assert_eq!(ProviderId::from_lowercase_name("openai"), Some(ProviderId::OpenAI));
}

#[test]
fn every_provider_round_trips() {
    let all = ProviderId::all();
    let defs = providers();
    assert_eq!(all.len(), 15);
    for (i, id) in all.iter().enumerate() {
        assert_eq!(ProviderId::from_str(id.as_str()), Some(*id));
        assert_eq!(id.index(), i);
        assert_eq!(defs[i].id, *id);
    }
    assert_eq!(ProviderId::default(), ProviderId::DeepSeek);
    assert!(!ProviderId::Ollama.definition().requires_api_key);
    assert_eq!(ProviderId::Anthropic.definition().protocol, Protocol::Anthropic);
}
