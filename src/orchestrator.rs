//! The translator that keeps enrichments next to the items that triggered them.
//!
//! [`ReasoningTranslator`] owns the barrier, the queue of deferred items and the
//! request counter. It performs no I/O: each entry point returns the items to
//! append to the output, in order, and the translation requests to dispatch.
//! The host runs the requests, feeds their completions back through
//! [`ReasoningTranslator::on_draw_tick`], and supplies the current time in
//! milliseconds on its own clock.

use std::collections::VecDeque;
use vstd::prelude::*;
use crate::config::TranslationConfig;
use crate::enrichment::{
    begin, complete, complete_all, drain, emit, emit_item, enrichment_text, flush, initial_state,
    intercept, lemma_complete_all_keeps_order, lemma_emit_item_keeps_order,
    lemma_intercept_keeps_order, lemma_timeout_keeps_order, maybe_begin, ordered, tick, timeout, timeout_message,
    BarrierView, EmittedView, ItemView, MessageView, RequestView, StepResult, ThreadId,
    TranslatorState,
};
use crate::splitter::{bold_title, extract_first_bold, extract_reasoning_body, opt_chars};
use crate::text::{chars_of, concat, copy_range, decimal_string, parse_u64_chars, parses_u64, trim, trim_bounds};

verus! {

/// Default maximum wait for a translation, in milliseconds.
pub const DEFAULT_TRANSLATION_MAX_WAIT_MS: u64 = 5000;

/// An item of the output stream, with the reasoning text to translate if it is a reasoning item.
pub struct StreamItem<C> {
    pub cell: C,
    pub reasoning: Option<String>,
}

impl<C> View for StreamItem<C> {
    type V = ItemView<C>;

    open spec fn view(&self) -> ItemView<C> {
        ItemView { cell: self.cell, reasoning: opt_chars(self.reasoning) }
    }
}

/// An item to append to the output stream.
pub enum Emitted<C> {
    /// An intercepted item, passed through.
    Cell(C),
    /// The translation of the reasoning item just before it.
    Translation { request_id: u64, text: String },
    /// A translation that failed or timed out, with the original title.
    TranslationError { request_id: u64, title: Option<String>, reason: String },
}

impl<C> View for Emitted<C> {
    type V = EmittedView<C>;

    open spec fn view(&self) -> EmittedView<C> {
        match self {
            Emitted::Cell(c) => EmittedView::Cell(*c),
            Emitted::Translation { request_id, text } => EmittedView::Translation {
                request_id: *request_id,
                text: text@,
            },
            Emitted::TranslationError { request_id, title, reason } => EmittedView::Failure {
                request_id: *request_id,
                title: opt_chars(*title),
                reason: reason@,
            },
        }
    }
}

/// A translation to run: translate `text`, then deliver a [`TranslationResult`]
/// carrying the same request id, thread and title.
pub struct TranslationRequest {
    pub request_id: u64,
    pub thread_id: ThreadId,
    pub title: Option<String>,
    pub text: String,
    /// The host should wake up after this many milliseconds to check the deadline.
    pub max_wait_ms: u64,
}

impl View for TranslationRequest {
    type V = RequestView;

    open spec fn view(&self) -> RequestView {
        RequestView {
            request_id: self.request_id,
            thread_id: self.thread_id,
            title: opt_chars(self.title),
            text: self.text@,
            max_wait_ms: self.max_wait_ms,
        }
    }
}

/// The completion of a translation request.
pub struct TranslationResult {
    pub request_id: u64,
    pub thread_id: ThreadId,
    /// Original title (e.g. "Thinking") for error display.
    pub title: Option<String>,
    pub translated: Option<String>,
    pub error: Option<String>,
}

impl View for TranslationResult {
    type V = MessageView;

    open spec fn view(&self) -> MessageView {
        MessageView {
            request_id: self.request_id,
            thread_id: self.thread_id,
            title: opt_chars(self.title),
            translated: opt_chars(self.translated),
            error: opt_chars(self.error),
        }
    }
}

impl TranslationResult {
    pub fn new(
        request_id: u64,
        thread_id: ThreadId,
        title: Option<String>,
        translated: Option<String>,
        error: Option<String>,
    ) -> (r: Self)
        ensures
            r == (TranslationResult { request_id, thread_id, title, translated, error }),
    {
        TranslationResult { request_id, thread_id, title, translated, error }
    }
}

struct TranslationBarrier {
    request_id: u64,
    thread_id: ThreadId,
    /// Original title for timeout error display.
    title: Option<String>,
    max_wait_ms: u64,
    deadline_ms: u64,
}

impl View for TranslationBarrier {
    type V = BarrierView;

    closed spec fn view(&self) -> BarrierView {
        BarrierView {
            request_id: self.request_id,
            thread_id: self.thread_id,
            title: opt_chars(self.title),
            max_wait_ms: self.max_wait_ms,
            deadline_ms: self.deadline_ms,
        }
    }
}

/// What one call produced: the items to append to the output, in order, the
/// requests to dispatch, and whether a barrier was resolved.
pub struct Effects<C> {
    pub emitted: Vec<Emitted<C>>,
    pub requests: Vec<TranslationRequest>,
    pub needs_redraw: bool,
}

pub open spec fn emitted_view<C>(v: Seq<Emitted<C>>) -> Seq<EmittedView<C>> {
    v.map_values(|e: Emitted<C>| e@)
}

pub open spec fn requests_view(v: Seq<TranslationRequest>) -> Seq<RequestView> {
    v.map_values(|r: TranslationRequest| r@)
}

pub open spec fn messages_view(v: Seq<TranslationResult>) -> Seq<MessageView> {
    v.map_values(|m: TranslationResult| m@)
}

/// `e` is what the step from `before` to `r` produced.
pub open spec fn describes<C>(e: Effects<C>, before: TranslatorState<C>, r: StepResult<C>) -> bool {
    &&& r.state.history == before.history + emitted_view(e.emitted@)
    &&& requests_view(e.requests@) == r.requests
    &&& e.needs_redraw == r.redraw
}

fn no_effects<C>() -> (r: Effects<C>)
    ensures
        r.emitted@.len() == 0,
        r.requests@.len() == 0,
        !r.needs_redraw,
{
    Effects { emitted: Vec::new(), requests: Vec::new(), needs_redraw: false }
}

fn clone_text(o: &Option<String>) -> (r: Option<String>)
    ensures
        r == *o,
{
    match o {
        Some(s) => Some(s.clone()),
        None => None,
    }
}

/// The text shown for a successful translation.
fn enrichment_display(translated: String) -> (r: String)
    ensures
        r@ == enrichment_text(translated@),
{
    // The translation repeats the title; only its body is shown.
    match extract_reasoning_body(translated.as_str()) {
        Some(body) => body,
        None => translated,
    }
}

/// The reason given when a barrier times out.
fn timeout_text(max_wait_ms: u64) -> (r: String)
    ensures
        r@ == timeout_message(max_wait_ms),
{
    let digits = decimal_string(max_wait_ms);
    let head = concat("Translation timeout (", digits.as_str());
    concat(head.as_str(), "ms)")
}

/// The maximum wait for a translation, given the raw value of the setting that
/// overrides it: its trimmed value if that is a valid `u64`, else the default.
pub fn max_wait_from_env(raw: Option<&str>) -> (r: u64)
    ensures
        r == match raw {
            Some(s) => match parses_u64(trim(s@)) {
                Some(ms) => ms,
                None => DEFAULT_TRANSLATION_MAX_WAIT_MS,
            },
            None => DEFAULT_TRANSLATION_MAX_WAIT_MS,
        },
{
    match raw {
        Some(s) => {
            let v = chars_of(s);
            let (lo, hi) = trim_bounds(&v, 0, v.len());
            assert(v@.subrange(0, v@.len() as int) =~= v@);
            let t = copy_range(&v, lo, hi);
            match parse_u64_chars(&t) {
                Some(ms) => ms,
                None => DEFAULT_TRANSLATION_MAX_WAIT_MS,
            }
        },
        None => DEFAULT_TRANSLATION_MAX_WAIT_MS,
    }
}

/// Orders translations of reasoning items right after the items themselves.
pub struct ReasoningTranslator<C> {
    enabled: bool,
    config: TranslationConfig,
    /// Barrier for aligning a translation with its original content.
    translation_barrier: Option<TranslationBarrier>,
    /// Items deferred while the barrier is open.
    deferred_history_cells: VecDeque<StreamItem<C>>,
    /// Source of request ids.
    translation_seq: u64,
    intercepted: Ghost<Seq<C>>,
    history: Ghost<Seq<EmittedView<C>>>,
    triggers: Ghost<Map<int, u64>>,
}

impl<C> View for ReasoningTranslator<C> {
    type V = TranslatorState<C>;

    closed spec fn view(&self) -> TranslatorState<C> {
        TranslatorState {
            enabled: self.enabled,
            barrier: match self.translation_barrier {
                Some(b) => Some(b@),
                None => None,
            },
            queue: self.deferred_history_cells@.map_values(|i: StreamItem<C>| i@),
            seq: self.translation_seq,
            intercepted: self.intercepted@,
            history: self.history@,
            triggers: self.triggers@,
        }
    }
}

impl<C> ReasoningTranslator<C> {
    /// The translator keeps its ordering guarantees.
    pub open spec fn wf(&self) -> bool {
        ordered(self@)
    }

    /// The configuration in use.
    pub closed spec fn current_config(&self) -> TranslationConfig {
        self.config
    }

    pub fn new(enabled: bool) -> (r: Self)
        ensures
            r@ == initial_state::<C>(enabled),
            r.wf(),
    {
        let mut config = TranslationConfig::default();
        config.enabled = enabled;
        Self::from_config(config)
    }

    /// Create from configuration.
    pub fn from_config(config: TranslationConfig) -> (r: Self)
        ensures
            r@ == initial_state::<C>(config.enabled),
            r.current_config() == config,
            r.wf(),
    {
        let enabled = config.enabled;
        let r = ReasoningTranslator {
            enabled,
            config,
            translation_barrier: None,
            deferred_history_cells: VecDeque::new(),
            translation_seq: 0,
            intercepted: Ghost(Seq::empty()),
            history: Ghost(Seq::empty()),
            triggers: Ghost(Map::empty()),
        };
        assert(r@.queue =~= Seq::<ItemView<C>>::empty());
        assert(r@ == initial_state::<C>(enabled));
        r
    }

    /// Replace the configuration; an open barrier stays open under its own deadline.
    pub fn update_config(&mut self, config: TranslationConfig)
        requires
            old(self).wf(),
        ensures
            final(self)@ == (TranslatorState { enabled: config.enabled, ..old(self)@ }),
            final(self).current_config() == config,
            final(self).wf(),
    {
        self.enabled = config.enabled;
        self.config = config;
    }

    /// Get the current configuration.
    pub fn config(&self) -> (r: &TranslationConfig)
        ensures
            *r == self.current_config(),
    {
        &self.config
    }

    /// Set whether translation is enabled.
    pub fn set_enabled(&mut self, enabled: bool)
        requires
            old(self).wf(),
        ensures
            final(self)@ == (TranslatorState { enabled, ..old(self)@ }),
            final(self).current_config() == (TranslationConfig { enabled, ..old(self).current_config() }),
            final(self).wf(),
    {
        self.enabled = enabled;
        self.config.enabled = enabled;
    }

    /// Returns whether translation is enabled.
    pub fn is_enabled(&self) -> (r: bool)
        ensures
            r == self@.enabled,
    {
        self.enabled
    }

    /// Appends `e` to the output of this call.
    fn push_out(&mut self, e: Emitted<C>, effects: &mut Effects<C>)
        ensures
            final(self)@ == emit(old(self)@, e@),
            final(effects).emitted@ == old(effects).emitted@.push(e),
            final(effects).requests@ == old(effects).requests@,
            final(effects).needs_redraw == old(effects).needs_redraw,
    {
        let ghost ev = e@;
        self.history = Ghost(self.history@.push(ev));
        effects.emitted.push(e);
    }

    /// Opens a barrier for the item emitted last, unless one is open already:
    /// then nothing changes and no request is made.
    fn begin_barrier(
        &mut self,
        thread_id: ThreadId,
        title: Option<String>,
        text: String,
        now_ms: u64,
        max_wait_ms: u64,
    ) -> (r: Option<TranslationRequest>)
        requires
            opt_chars(title) == bold_title(text@),
        ensures
            match r {
                Some(q) => {
                    &&& old(self)@.barrier is None
                    &&& final(self)@ == begin(old(self)@, thread_id, text@, now_ms, max_wait_ms).state
                    &&& seq![q@] == begin(old(self)@, thread_id, text@, now_ms, max_wait_ms).requests
                },
                None => old(self)@.barrier is Some && final(self)@ == old(self)@,
            },
    {
        if self.translation_barrier.is_some() {
            // Only one barrier at a time.
            return None;
        }
        let request_id = self.translation_seq;
        self.translation_seq = self.translation_seq.saturating_add(1);
        let deadline_ms = now_ms.saturating_add(max_wait_ms);
        self.translation_barrier = Some(
            TranslationBarrier { request_id, thread_id, title: clone_text(&title), max_wait_ms, deadline_ms },
        );
        self.triggers = Ghost(self.triggers@.insert(self.history@.len() - 1, request_id));
        let r = TranslationRequest { request_id, thread_id, title, text, max_wait_ms };
        assert(seq![r@] =~= begin(old(self)@, thread_id, text@, now_ms, max_wait_ms).requests);
        Some(r)
    }

    /// Starts a translation for the reasoning item emitted last, if it is
    /// eligible and no barrier is open; returns the request to dispatch.
    fn maybe_translate_reasoning(
        &mut self,
        thread_id: Option<ThreadId>,
        full_reasoning: String,
        now_ms: u64,
        max_wait_ms: u64,
    ) -> (r: Option<TranslationRequest>)
        ensures
            final(self)@ == maybe_begin(old(self)@, thread_id, Some(full_reasoning@), now_ms, max_wait_ms).state,
            match r {
                Some(q) => seq![q@] == maybe_begin(old(self)@, thread_id, Some(full_reasoning@), now_ms, max_wait_ms).requests,
                None => maybe_begin(old(self)@, thread_id, Some(full_reasoning@), now_ms, max_wait_ms).requests.len() == 0,
            },
    {
        if !self.enabled {
            return None;
        }
        let thread_id = match thread_id {
            Some(t) => t,
            None => return None,
        };
        // The title is shown if the translation fails.
        let title = extract_first_bold(full_reasoning.as_str());
        // Only reasoning with a body after its title is translated.
        if extract_reasoning_body(full_reasoning.as_str()).is_none() {
            return None;
        }
        self.begin_barrier(thread_id, title, full_reasoning, now_ms, max_wait_ms)
    }

    /// Emits an item, deferring it while a barrier is open. Its reasoning text,
    /// if any, is not translated now; it is if the item is deferred and flushed later.
    pub fn emit_history_cell(&mut self, item: StreamItem<C>) -> (r: Vec<Emitted<C>>)
        requires
            old(self).wf(),
        ensures
            final(self)@ == emit_item(old(self)@, item@),
            final(self)@.history == old(self)@.history + emitted_view(r@),
            final(self).wf(),
    {
        proof {
            lemma_emit_item_keeps_order(self@, item@);
        }
        let mut effects = no_effects();
        self.intercepted = Ghost(self.intercepted@.push(item.cell));
        if self.translation_barrier.is_some() {
            let ghost q = self.deferred_history_cells@;
            self.deferred_history_cells.push_back(item);
            assert(self.deferred_history_cells@.map_values(|i: StreamItem<C>| i@) =~= q.map_values(
                |i: StreamItem<C>| i@,
            ).push(item@));
        } else {
            self.push_out(Emitted::Cell(item.cell), &mut effects);
        }
        assert(emitted_view(effects.emitted@) =~= self@.history.subrange(old(self)@.history.len() as int, self@.history.len() as int));
        assert(self@.history =~= old(self)@.history + emitted_view(effects.emitted@));
        effects.emitted
    }

    /// Emits an item and, if it is an eligible reasoning item and no barrier is
    /// open, starts its translation. While a barrier is open the item is deferred.
    pub fn emit_history_cell_with_translation_hook(
        &mut self,
        item: StreamItem<C>,
        active_thread_id: Option<ThreadId>,
        now_ms: u64,
        max_wait_ms: u64,
    ) -> (r: Effects<C>)
        requires
            old(self).wf(),
        ensures
            describes(r, old(self)@, intercept(old(self)@, item@, active_thread_id, now_ms, max_wait_ms)),
            final(self)@ == intercept(old(self)@, item@, active_thread_id, now_ms, max_wait_ms).state,
            final(self).wf(),
    {
        proof {
            lemma_intercept_keeps_order(self@, item@, active_thread_id, now_ms, max_wait_ms);
        }
        let mut effects = no_effects();
        self.intercepted = Ghost(self.intercepted@.push(item.cell));
        if self.translation_barrier.is_some() {
            let ghost q = self.deferred_history_cells@;
            self.deferred_history_cells.push_back(item);
            assert(self.deferred_history_cells@.map_values(|i: StreamItem<C>| i@) =~= q.map_values(
                |i: StreamItem<C>| i@,
            ).push(item@));
            assert(self@.history =~= old(self)@.history + emitted_view(effects.emitted@));
            assert(requests_view(effects.requests@) =~= Seq::<RequestView>::empty());
            return effects;
        }
        let ghost iv = item@;
        let StreamItem { cell, reasoning } = item;
        self.push_out(Emitted::Cell(cell), &mut effects);
        assert(self@ == emit_item(old(self)@, iv));
        match reasoning {
            Some(text) => {
                match self.maybe_translate_reasoning(active_thread_id, text, now_ms, max_wait_ms) {
                    Some(req) => {
                        effects.requests.push(req);
                    },
                    None => {},
                }
            },
            None => {},
        }
        assert(self@.history =~= old(self)@.history + emitted_view(effects.emitted@));
        assert(requests_view(effects.requests@) =~= intercept(old(self)@, iv, active_thread_id, now_ms, max_wait_ms).requests);
        effects
    }

    /// Emits deferred items in order until the queue is empty or one of them
    /// opens a new barrier; flushing stops there to keep the order.
    fn flush_deferred_cells(
        &mut self,
        active_thread_id: Option<ThreadId>,
        now_ms: u64,
        max_wait_ms: u64,
        effects: &mut Effects<C>,
        Ghost(base): Ghost<Seq<EmittedView<C>>>,
    )
        requires
            old(self)@.barrier is None,
            old(self)@.history == base + emitted_view(old(effects).emitted@),
        ensures
            final(self)@ == flush(old(self)@, active_thread_id, now_ms, max_wait_ms).state,
            final(self)@.history == base + emitted_view(final(effects).emitted@),
            requests_view(final(effects).requests@) == requests_view(old(effects).requests@)
                + flush(old(self)@, active_thread_id, now_ms, max_wait_ms).requests,
            final(effects).needs_redraw == old(effects).needs_redraw,
    {
        let ghost target = flush(self@, active_thread_id, now_ms, max_wait_ms);
        let ghost req0 = requests_view(effects.requests@);
        loop
            invariant_except_break
                self@.barrier is None,
                flush(self@, active_thread_id, now_ms, max_wait_ms) == target,
                requests_view(effects.requests@) == req0,
            invariant
                self@.history == base + emitted_view(effects.emitted@),
                effects.needs_redraw == old(effects).needs_redraw,
            ensures
                self@ == target.state,
                requests_view(effects.requests@) == req0 + target.requests,
            decreases self@.queue.len(),
        {
            let ghost before = self@;
            let ghost dq = self.deferred_history_cells@;
            match self.deferred_history_cells.pop_front() {
                None => {
                    assert(requests_view(effects.requests@) =~= req0 + target.requests);
                    break;
                },
                Some(item) => {
                    assert(self@.queue =~= before.queue.drop_first());
                    let ghost iv = item@;
                    assert(before.queue[0] == iv);
                    let StreamItem { cell, reasoning } = item;
                    let ghost e_before = effects.emitted@;
                    self.push_out(Emitted::Cell(cell), effects);
                    assert(self@ == emit(
                        TranslatorState { queue: before.queue.drop_first(), ..before },
                        EmittedView::Cell(cell),
                    ));
                    assert(emitted_view(effects.emitted@) =~= emitted_view(e_before).push(EmittedView::Cell(cell)));
                    let ghost s1 = self@;
                    match reasoning {
                        Some(text) => {
                            let ghost tv = text@;
                            assert(iv.reasoning == Some(tv));
                            match self.maybe_translate_reasoning(active_thread_id, text, now_ms, max_wait_ms) {
                                Some(req) => {
                                    // A request came back, so the item opened a barrier: that is
                                    // where the flush stops.
                                    proof {
                                        assert(seq![req@].len() == 1);
                                        assert(maybe_begin(s1, active_thread_id, Some(tv), now_ms, max_wait_ms).requests.len() == 1);
                                        assert(target == begin(s1, active_thread_id->0, tv, now_ms, max_wait_ms));
                                    }
                                    let ghost r0 = effects.requests@;
                                    effects.requests.push(req);
                                    assert(requests_view(effects.requests@) =~= requests_view(r0).push(req@));
                                    assert(requests_view(effects.requests@) =~= req0 + target.requests);
                                    break;
                                },
                                None => {},
                            }
                        },
                        None => {},
                    }
                },
            }
        }
    }

    /// Applies one completion: if it resolves the open barrier, emits the
    /// translation (or the error) and flushes the deferred items.
    fn on_translation_completed(
        &mut self,
        msg: TranslationResult,
        active_thread_id: Option<ThreadId>,
        now_ms: u64,
        max_wait_ms: u64,
        effects: &mut Effects<C>,
        Ghost(base): Ghost<Seq<EmittedView<C>>>,
    )
        requires
            old(self)@.history == base + emitted_view(old(effects).emitted@),
        ensures
            final(self)@ == complete(old(self)@, msg@, active_thread_id, now_ms, max_wait_ms).state,
            final(self)@.history == base + emitted_view(final(effects).emitted@),
            requests_view(final(effects).requests@) == requests_view(old(effects).requests@)
                + complete(old(self)@, msg@, active_thread_id, now_ms, max_wait_ms).requests,
            final(effects).needs_redraw == (old(effects).needs_redraw
                || complete(old(self)@, msg@, active_thread_id, now_ms, max_wait_ms).redraw),
    {
        let ghost mv = msg@;
        let TranslationResult { request_id, thread_id, title, translated, error } = msg;
        // The barrier must still be open and belong to this request.
        let matched = match &self.translation_barrier {
            Some(b) => b.request_id == request_id && b.thread_id == thread_id,
            None => false,
        };
        // A completion for a thread that is no longer shown is dropped.
        let active = match active_thread_id {
            Some(a) => a == thread_id,
            None => false,
        };
        if !matched || !active {
            assert(requests_view(effects.requests@) =~= requests_view(effects.requests@) + Seq::<RequestView>::empty());
            return;
        }
        self.translation_barrier = None;
        let e = match translated {
            Some(t) => Emitted::Translation { request_id, text: enrichment_display(t) },
            None => {
                let reason = match error {
                    Some(e) => e,
                    None => String::from_str("unknown error"),
                };
                Emitted::TranslationError { request_id, title, reason }
            },
        };
        let ghost e_before = effects.emitted@;
        self.push_out(e, effects);
        assert(emitted_view(effects.emitted@) =~= emitted_view(e_before).push(e@));
        self.flush_deferred_cells(active_thread_id, now_ms, max_wait_ms, effects, Ghost(base));
        effects.needs_redraw = true;
    }

    /// Applies pending completions in order.
    pub fn drain_results(
        &mut self,
        results: Vec<TranslationResult>,
        active_thread_id: Option<ThreadId>,
        now_ms: u64,
        max_wait_ms: u64,
    ) -> (r: Effects<C>)
        requires
            old(self).wf(),
        ensures
            describes(r, old(self)@, drain(old(self)@, messages_view(results@), active_thread_id, now_ms, max_wait_ms)),
            final(self)@ == drain(old(self)@, messages_view(results@), active_thread_id, now_ms, max_wait_ms).state,
            final(self).wf(),
    {
        let mut effects = no_effects();
        if !self.enabled {
            assert(self@.history =~= old(self)@.history + emitted_view(effects.emitted@));
            assert(requests_view(effects.requests@) =~= Seq::<RequestView>::empty());
            return effects;
        }
        let ghost s0 = self@;
        let ghost all = messages_view(results@);
        let ghost target = complete_all(s0, all, active_thread_id, now_ms, max_wait_ms);
        proof {
            lemma_complete_all_keeps_order(s0, all, active_thread_id, now_ms, max_wait_ms);
        }
        let mut results = results;
        assert(messages_view(results@) == all);
        assert(self@.history =~= s0.history + emitted_view(effects.emitted@));
        assert(requests_view(effects.requests@) =~= Seq::<RequestView>::empty());
        while results.len() > 0
            invariant
                self@.history == s0.history + emitted_view(effects.emitted@),
                complete_all(self@, messages_view(results@), active_thread_id, now_ms, max_wait_ms).state == target.state,
                requests_view(effects.requests@) + complete_all(self@, messages_view(results@), active_thread_id, now_ms, max_wait_ms).requests == target.requests,
                (effects.needs_redraw || complete_all(self@, messages_view(results@), active_thread_id, now_ms, max_wait_ms).redraw) == target.redraw,
            decreases results@.len(),
        {
            let ghost cur = self@;
            let ghost ms = messages_view(results@);
            let ghost req_before = requests_view(effects.requests@);
            let msg = results.remove(0);
            assert(messages_view(results@) =~= ms.drop_first());
            assert(msg@ == ms[0]);
            self.on_translation_completed(msg, active_thread_id, now_ms, max_wait_ms, &mut effects, Ghost(s0.history));
            let ghost r1 = complete(cur, ms[0], active_thread_id, now_ms, max_wait_ms);
            let ghost r2 = complete_all(r1.state, ms.drop_first(), active_thread_id, now_ms, max_wait_ms);
            assert(req_before + (r1.requests + r2.requests) =~= (req_before + r1.requests) + r2.requests);
        }
        assert(messages_view(results@) =~= Seq::<MessageView>::empty());
        assert(requests_view(effects.requests@) =~= requests_view(effects.requests@) + Seq::<RequestView>::empty());
        effects
    }

    /// Resolves the open barrier with a timeout error if its deadline has passed,
    /// then flushes the deferred items.
    pub fn maybe_flush_timeout(
        &mut self,
        active_thread_id: Option<ThreadId>,
        now_ms: u64,
        max_wait_ms: u64,
    ) -> (r: Effects<C>)
        requires
            old(self).wf(),
        ensures
            describes(r, old(self)@, timeout(old(self)@, active_thread_id, now_ms, max_wait_ms)),
            final(self)@ == timeout(old(self)@, active_thread_id, now_ms, max_wait_ms).state,
            final(self).wf(),
    {
        proof {
            lemma_timeout_keeps_order(self@, active_thread_id, now_ms, max_wait_ms);
        }
        let mut effects = no_effects();
        assert(self@.history =~= old(self)@.history + emitted_view(effects.emitted@));
        assert(requests_view(effects.requests@) =~= Seq::<RequestView>::empty());
        // An open barrier keeps its deadline even if translation was switched off.
        let expired = match &self.translation_barrier {
            Some(b) => now_ms >= b.deadline_ms,
            None => false,
        };
        if !expired {
            return effects;
        }
        let barrier = match self.translation_barrier.take() {
            Some(b) => b,
            None => return effects,
        };
        let reason = timeout_text(barrier.max_wait_ms);
        let e = Emitted::TranslationError { request_id: barrier.request_id, title: barrier.title, reason };
        self.push_out(e, &mut effects);
        assert(emitted_view(effects.emitted@) =~= seq![e@]);
        assert(self@.history =~= old(self)@.history + emitted_view(effects.emitted@));
        self.flush_deferred_cells(active_thread_id, now_ms, max_wait_ms, &mut effects, Ghost(old(self)@.history));
        assert(requests_view(effects.requests@) =~= timeout(old(self)@, active_thread_id, now_ms, max_wait_ms).requests);
        effects.needs_redraw = true;
        effects
    }

    /// Called on each draw tick: applies the completions received since the
    /// last tick (while translation is enabled), then checks the deadline of
    /// the open barrier (always).
    pub fn on_draw_tick(
        &mut self,
        results: Vec<TranslationResult>,
        active_thread_id: Option<ThreadId>,
        now_ms: u64,
        max_wait_ms: u64,
    ) -> (r: Effects<C>)
        requires
            old(self).wf(),
        ensures
            describes(r, old(self)@, tick(old(self)@, messages_view(results@), active_thread_id, now_ms, max_wait_ms)),
            final(self)@ == tick(old(self)@, messages_view(results@), active_thread_id, now_ms, max_wait_ms).state,
            final(self).wf(),
    {
        let mut result = self.drain_results(results, active_thread_id, now_ms, max_wait_ms);
        let ghost mid = self@;
        let mut late = self.maybe_flush_timeout(active_thread_id, now_ms, max_wait_ms);
        let ghost e1 = result.emitted@;
        let ghost e2 = late.emitted@;
        let ghost q1 = result.requests@;
        let ghost q2 = late.requests@;
        result.emitted.append(&mut late.emitted);
        result.requests.append(&mut late.requests);
        result.needs_redraw = result.needs_redraw || late.needs_redraw;
        assert(emitted_view(e1 + e2) =~= emitted_view(e1) + emitted_view(e2));
        assert(requests_view(q1 + q2) =~= requests_view(q1) + requests_view(q2));
        assert(self@.history =~= old(self)@.history + emitted_view(result.emitted@));
        result
    }
}

impl<C> Default for ReasoningTranslator<C> {
    /// A translator with the default configuration, which is disabled.
    fn default() -> (r: Self)
        ensures
            r@ == initial_state::<C>(false),
            r.wf(),
    {
        Self::from_config(TranslationConfig::default())
    }
}

} // verus!
