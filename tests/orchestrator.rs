use codex_translate::enrichment::ThreadId;
use codex_translate::orchestrator::{
    max_wait_from_env, Effects, Emitted, ReasoningTranslator, StreamItem, TranslationResult,
};

fn plain(cell: &'static str) -> StreamItem<&'static str> {
    StreamItem { cell, reasoning: None }
}

fn reasoning(cell: &'static str, text: &str) -> StreamItem<&'static str> {
    StreamItem { cell, reasoning: Some(text.to_string()) }
}

fn thread() -> Option<ThreadId> {
    Some(ThreadId { value: 7 })
}

fn describe(e: &Effects<&'static str>) -> Vec<String> {
    e.emitted
        .iter()
        .map(|x| match x {
            Emitted::Cell(c) => format!("cell:{c}"),
            Emitted::Translation { request_id, text } => format!("tr{request_id}:{text}"),
            Emitted::TranslationError { request_id, title, reason } => {
                format!("err{request_id}:{}:{reason}", title.clone().unwrap_or_default())
            }
        })
        .collect()
}

fn success(id: u64, text: &str) -> TranslationResult {
    TranslationResult::new(id, ThreadId { value: 7 }, Some("Thinking".to_string()), Some(text.to_string()), None)
}

#[test]
fn flush_then_reopen() {
    let mut t = ReasoningTranslator::new(true);
    let a = t.emit_history_cell_with_translation_hook(reasoning("A", "**Thinking**\nfirst"), thread(), 0, 5000);
    assert_eq!(describe(&a), vec!["cell:A"]);
    assert_eq!(a.requests.len(), 1);
    assert_eq!(a.requests[0].request_id, 0);
    assert_eq!(a.requests[0].title.as_deref(), Some("Thinking"));
    assert_eq!(a.requests[0].text, "**Thinking**\nfirst");
    let b = t.emit_history_cell_with_translation_hook(reasoning("B", "**Plan**\nsecond"), thread(), 1, 5000);
    assert!(b.emitted.is_empty() && b.requests.is_empty());
    let c = t.emit_history_cell_with_translation_hook(plain("C"), thread(), 2, 5000);
    assert!(c.emitted.is_empty() && c.requests.is_empty());

    let r = t.on_draw_tick(vec![success(0, "**思考**\n第一")], thread(), 10, 5000);
    assert_eq!(describe(&r), vec!["tr0:第一", "cell:B"]);
    assert_eq!(r.requests.len(), 1);
    assert_eq!(r.requests[0].request_id, 1);
    assert!(r.needs_redraw);

    let idle = t.on_draw_tick(vec![], thread(), 20, 5000);
    assert!(idle.emitted.is_empty());
    assert!(!idle.needs_redraw);

    let r = t.on_draw_tick(vec![success(1, "**计划**\n第二")], thread(), 30, 5000);
    assert_eq!(describe(&r), vec!["tr1:第二", "cell:C"]);
    assert!(r.requests.is_empty());
}

#[test]
fn second_eligible_item_is_queued_not_dispatched() {
    let mut t = ReasoningTranslator::new(true);
    let a = t.emit_history_cell_with_translation_hook(reasoning("A", "**T**\nx"), thread(), 0, 5000);
    assert_eq!(a.requests.len(), 1);
    for _ in 0..3 {
        let e = t.emit_history_cell_with_translation_hook(reasoning("B", "**T**\ny"), thread(), 0, 5000);
        assert!(e.requests.is_empty());
        assert!(e.emitted.is_empty());
    }
}

#[test]
fn stale_completion_is_discarded() {
    let mut t = ReasoningTranslator::new(true);
    t.emit_history_cell_with_translation_hook(reasoning("A", "**T**\nx"), thread(), 0, 5000);
    t.emit_history_cell_with_translation_hook(plain("B"), thread(), 0, 5000);
    let stale = t.on_draw_tick(vec![success(41, "late")], thread(), 1, 5000);
    assert!(stale.emitted.is_empty() && stale.requests.is_empty() && !stale.needs_redraw);
    let other_thread = TranslationResult::new(0, ThreadId { value: 8 }, None, Some("x".to_string()), None);
    let r = t.on_draw_tick(vec![other_thread], thread(), 1, 5000);
    assert!(r.emitted.is_empty());
    let r = t.on_draw_tick(vec![success(0, "plain translation")], thread(), 2, 5000);
    assert_eq!(describe(&r), vec!["tr0:plain translation", "cell:B"]);
    let dup = t.on_draw_tick(vec![success(0, "again")], thread(), 3, 5000);
    assert!(dup.emitted.is_empty());
}

#[test]
fn completion_for_inactive_thread_is_dropped() {
    let mut t = ReasoningTranslator::new(true);
    t.emit_history_cell_with_translation_hook(reasoning("A", "**T**\nx"), thread(), 0, 5000);
    let r = t.on_draw_tick(vec![success(0, "y")], Some(ThreadId { value: 9 }), 1, 5000);
    assert!(r.emitted.is_empty());
    // The barrier is still open and times out later.
    let r = t.on_draw_tick(vec![], thread(), 5000, 5000);
    assert_eq!(describe(&r), vec!["err0:T:Translation timeout (5000ms)"]);
}

#[test]
fn timeout_emits_one_error_then_flushes() {
    let mut t = ReasoningTranslator::new(true);
    t.emit_history_cell_with_translation_hook(reasoning("A", "**Thinking**\nx"), thread(), 1000, 250);
    t.emit_history_cell_with_translation_hook(plain("B"), thread(), 1001, 250);
    t.emit_history_cell_with_translation_hook(plain("C"), thread(), 1002, 250);
    let early = t.maybe_flush_timeout(thread(), 1249, 250);
    assert!(early.emitted.is_empty());
    let r = t.maybe_flush_timeout(thread(), 1250, 250);
    assert_eq!(describe(&r), vec!["err0:Thinking:Translation timeout (250ms)", "cell:B", "cell:C"]);
    assert!(r.needs_redraw);
    let again = t.maybe_flush_timeout(thread(), 9999, 250);
    assert!(again.emitted.is_empty());
}

#[test]
fn zero_wait_times_out_on_the_next_tick() {
    let mut t = ReasoningTranslator::new(true);
    t.emit_history_cell_with_translation_hook(reasoning("A", "**A**\nx"), thread(), 0, 0);
    t.emit_history_cell_with_translation_hook(reasoning("B", "**B**\ny"), thread(), 0, 0);
    let r = t.on_draw_tick(vec![], thread(), 0, 0);
    assert_eq!(describe(&r), vec!["err0:A:Translation timeout (0ms)", "cell:B"]);
    assert_eq!(r.requests.len(), 1);
    let r = t.on_draw_tick(vec![], thread(), 0, 0);
    assert_eq!(describe(&r), vec!["err1:B:Translation timeout (0ms)"]);
}

#[test]
fn failure_reports_reason_and_title() {
    let mut t = ReasoningTranslator::new(true);
    t.emit_history_cell_with_translation_hook(reasoning("A", "**Thinking**\nx"), thread(), 0, 5000);
    let failed = TranslationResult::new(0, ThreadId { value: 7 }, Some("Thinking".to_string()), None, Some("API error (401): no".to_string()));
    let r = t.drain_results(vec![failed], thread(), 1, 5000);
    assert_eq!(describe(&r), vec!["err0:Thinking:API error (401): no"]);
    t.emit_history_cell_with_translation_hook(reasoning("B", "**Next**\ny"), thread(), 2, 5000);
    let unknown = TranslationResult::new(1, ThreadId { value: 7 }, None, None, None);
    let r = t.drain_results(vec![unknown], thread(), 3, 5000);
    assert_eq!(describe(&r), vec!["err1::unknown error"]);
}

#[test]
fn translation_without_body_shows_whole_text() {
    let mut t = ReasoningTranslator::new(true);
    t.emit_history_cell_with_translation_hook(reasoning("A", "**T**\nx"), thread(), 0, 5000);
    let r = t.on_draw_tick(vec![success(0, "**只有标题**")], thread(), 1, 5000);
    assert_eq!(describe(&r), vec!["tr0:**只有标题**"]);
}

#[test]
fn ineligible_items_pass_through() {
    let mut t = ReasoningTranslator::new(true);
    let r = t.emit_history_cell_with_translation_hook(reasoning("A", "no title here"), thread(), 0, 5000);
    assert_eq!(describe(&r), vec!["cell:A"]);
    assert!(r.requests.is_empty());
    let r = t.emit_history_cell_with_translation_hook(reasoning("B", "**T**\nbody"), None, 0, 5000);
    assert!(r.requests.is_empty());
    let r = t.emit_history_cell_with_translation_hook(reasoning("C", "**T**"), thread(), 0, 5000);
    assert!(r.requests.is_empty());
}

#[test]
fn disabled_translator_never_dispatches() {
    let mut t = ReasoningTranslator::new(false);
    let r = t.emit_history_cell_with_translation_hook(reasoning("A", "**T**\nbody"), thread(), 0, 5000);
    assert_eq!(describe(&r), vec!["cell:A"]);
    assert!(r.requests.is_empty());
    assert!(!t.is_enabled());
    t.set_enabled(true);
    assert!(t.is_enabled());
    assert!(t.config().enabled);
}

#[test]
fn plain_emit_defers_and_translates_on_flush() {
    let mut t = ReasoningTranslator::new(true);
    let direct = t.emit_history_cell(reasoning("X", "**T**\nnot translated when emitted directly"));
    assert_eq!(direct.len(), 1);
    t.emit_history_cell_with_translation_hook(reasoning("A", "**T**\nx"), thread(), 0, 5000);
    let deferred = t.emit_history_cell(reasoning("B", "**U**\ny"));
    assert!(deferred.is_empty());
    let r = t.on_draw_tick(vec![success(0, "z")], thread(), 1, 5000);
    assert_eq!(describe(&r), vec!["tr0:z", "cell:B"]);
    assert_eq!(r.requests.len(), 1);
    assert_eq!(r.requests[0].request_id, 1);
}

#[test]
fn order_is_kept_over_a_long_run() {
    let mut t = ReasoningTranslator::new(true);
    let mut out: Vec<String> = Vec::new();
    let mut pending: Vec<u64> = Vec::new();
    let names = ["a", "b", "c", "d", "e", "f", "g", "h"];
    for (i, name) in names.iter().enumerate() {
        let item = if i % 2 == 0 { reasoning(name, "**T**\nbody") } else { plain(name) };
        let e = t.emit_history_cell_with_translation_hook(item, thread(), i as u64, 5000);
        out.extend(describe(&e));
        pending.extend(e.requests.iter().map(|r| r.request_id));
        if i % 3 == 2 {
            let msgs: Vec<TranslationResult> = pending.drain(..).map(|id| success(id, "t")).collect();
            let e = t.on_draw_tick(msgs, thread(), i as u64, 5000);
            out.extend(describe(&e));
            pending.extend(e.requests.iter().map(|r| r.request_id));
        }
    }
    while !pending.is_empty() {
        let msgs: Vec<TranslationResult> = pending.drain(..).map(|id| success(id, "t")).collect();
        let e = t.on_draw_tick(msgs, thread(), 100, 5000);
        out.extend(describe(&e));
        pending.extend(e.requests.iter().map(|r| r.request_id));
    }
    assert_eq!(
        out,
        vec!["cell:a", "tr0:t", "cell:b", "cell:c", "tr1:t", "cell:d", "cell:e", "tr2:t", "cell:f", "cell:g", "tr3:t", "cell:h"]
    );
}

#[test]
fn max_wait_setting() {
    assert_eq!(max_wait_from_env(None), 5000);
    assert_eq!(max_wait_from_env(Some(" 250 ")), 250);
    assert_eq!(max_wait_from_env(Some("+7")), 7);
    assert_eq!(max_wait_from_env(Some("abc")), 5000);
    assert_eq!(max_wait_from_env(Some("")), 5000);
    assert_eq!(max_wait_from_env(Some("-1")), 5000);
    assert_eq!(max_wait_from_env(Some("18446744073709551615")), u64::MAX);
    assert_eq!(max_wait_from_env(Some("18446744073709551616")), 5000);
}

#[test]
fn deadline_saturates() {
    let mut t = ReasoningTranslator::new(true);
    t.emit_history_cell_with_translation_hook(reasoning("A", "**T**\nx"), thread(), u64::MAX - 1, 10);
    let r = t.maybe_flush_timeout(thread(), u64::MAX - 1, 10);
    assert!(r.emitted.is_empty());
    let r = t.maybe_flush_timeout(thread(), u64::MAX, 10);
    assert_eq!(describe(&r), vec!["err0:T:Translation timeout (10ms)"]);
}

#[test]
fn open_barrier_times_out_after_translation_is_disabled() {
    let mut t = ReasoningTranslator::new(true);
    t.emit_history_cell_with_translation_hook(reasoning("A", "**Thinking**\nx"), thread(), 0, 100);
    t.set_enabled(false);
    let b = t.emit_history_cell_with_translation_hook(reasoning("B", "**Next**\ny"), thread(), 1, 100);
    assert!(b.emitted.is_empty());
    let early = t.on_draw_tick(vec![], thread(), 99, 100);
    assert!(early.emitted.is_empty());
    let r = t.on_draw_tick(vec![success(0, "ignored while disabled")], thread(), 100, 100);
    assert_eq!(describe(&r), vec!["err0:Thinking:Translation timeout (100ms)", "cell:B"]);
    assert!(r.requests.is_empty());
    assert!(r.needs_redraw);
}

#[test]
fn translation_without_title_is_shown_raw() {
    let mut t = ReasoningTranslator::new(true);
    t.emit_history_cell_with_translation_hook(reasoning("A", "**T**\nx"), thread(), 0, 5000);
    let r = t.on_draw_tick(vec![success(0, "  raw text ")], thread(), 1, 5000);
    assert_eq!(describe(&r), vec!["tr0:  raw text "]);
}
