use codex_translate::model_segment::{reasoning_effort_suffix, simplify_model_name, ModelSegment, ReasoningEffort};

#[test]
fn test_simplify_model_name() {
    // Date suffixes are removed
    assert_eq!(
        simplify_model_name("gpt-5.2-codex-2025-01-15"),
        "GPT 5.2 Codex"
    );
    assert_eq!(
        simplify_model_name("gpt-5.1-codex-max-20250101"),
        "GPT 5.1 Codex Max"
    );
    // Known names are mapped
    assert_eq!(simplify_model_name("gpt-5.2-codex"), "GPT 5.2 Codex");
    assert_eq!(
        simplify_model_name("gpt-5.1-codex-max"),
        "GPT 5.1 Codex Max"
    );
    assert_eq!(simplify_model_name("gpt-5"), "GPT 5");
    // Unknown names are kept
    assert_eq!(simplify_model_name("custom-model"), "custom-model");
}

#[test]
fn date_like_suffix_rules() {
    assert_eq!(simplify_model_name("gemini-1-5-pro-20241022"), "gemini-1-5-pro");
    assert_eq!(simplify_model_name("model-2024"), "model-2024");
    assert_eq!(simplify_model_name("model-20x40101"), "model-20x40101");
}

#[test]
fn segment_text() {
    let seg = ModelSegment;
    assert!(seg.collect("", None).is_none());
    let d = seg.collect("gpt-5", Some(ReasoningEffort::High)).unwrap();
    assert_eq!(d.text, "GPT 5 High");
    assert_eq!(d.model_id, "gpt-5");
    assert_eq!(seg.collect("gpt-5", Some(ReasoningEffort::NoEffort)).unwrap().text, "GPT 5");
    assert_eq!(seg.collect("m", None).unwrap().text, "m");
    assert_eq!(reasoning_effort_suffix(ReasoningEffort::XHigh), "Xhigh");
}
