//! The abstract state machine of ordered enrichment.
//!
//! A translator intercepts stream items one at a time. While a barrier is
//! open every item waits in a FIFO queue; otherwise it is emitted at once and,
//! if it is eligible, opens a barrier and asks for an enrichment. The barrier
//! is resolved by exactly one of a matching completion or its deadline; the
//! resolution emits one enrichment item and then flushes the queue until it
//! empties or another eligible item opens the next barrier.
//!
//! The state records, as ghost data, every item intercepted so far, every
//! item emitted so far, and for each emitted item that opened a barrier the
//! request id it opened, so that the ordering guarantees can be stated over
//! the whole output stream.

use vstd::prelude::*;
use crate::splitter::{bold_title, reasoning_body};
use crate::text::decimal;

verus! {

/// Correlation key: the conversation thread that a request belongs to.
#[derive(Debug, Clone, Copy, PartialEq, Eq, Hash, Structural)]
pub struct ThreadId {
    pub value: u128,
}

/// A stream item as the state machine sees it.
pub struct ItemView<C> {
    pub cell: C,
    /// The reasoning text to enrich, for a reasoning item.
    pub reasoning: Option<Seq<char>>,
}

/// An emitted item as the state machine sees it.
pub enum EmittedView<C> {
    /// An intercepted item, passed through.
    Cell(C),
    /// A successful enrichment.
    Translation { request_id: u64, text: Seq<char> },
    /// A failed or timed-out enrichment.
    Failure { request_id: u64, title: Option<Seq<char>>, reason: Seq<char> },
}

/// An open barrier.
pub struct BarrierView {
    pub request_id: u64,
    pub thread_id: ThreadId,
    pub title: Option<Seq<char>>,
    pub max_wait_ms: u64,
    pub deadline_ms: u64,
}

/// A request to compute an enrichment.
pub struct RequestView {
    pub request_id: u64,
    pub thread_id: ThreadId,
    pub title: Option<Seq<char>>,
    pub text: Seq<char>,
    pub max_wait_ms: u64,
}

/// A completion delivered for a request.
pub struct MessageView {
    pub request_id: u64,
    pub thread_id: ThreadId,
    pub title: Option<Seq<char>>,
    pub translated: Option<Seq<char>>,
    pub error: Option<Seq<char>>,
}

/// The state of a translator.
pub struct TranslatorState<C> {
    pub enabled: bool,
    pub barrier: Option<BarrierView>,
    pub queue: Seq<ItemView<C>>,
    /// The next request id.
    pub seq: u64,
    /// Every item intercepted so far, in order.
    pub intercepted: Seq<C>,
    /// Every item emitted so far, in order.
    pub history: Seq<EmittedView<C>>,
    /// For each position of `history` whose item opened a barrier, the request id it opened.
    pub triggers: Map<int, u64>,
}

/// The outcome of one step: the new state, the requests to dispatch, and
/// whether a barrier was resolved (so that the host should redraw).
pub struct StepResult<C> {
    pub state: TranslatorState<C>,
    pub requests: Seq<RequestView>,
    pub redraw: bool,
}

/// A translator that has done nothing yet.
pub open spec fn initial_state<C>(enabled: bool) -> TranslatorState<C> {
    TranslatorState {
        enabled,
        barrier: None,
        queue: seq![],
        seq: 0,
        intercepted: seq![],
        history: seq![],
        triggers: Map::empty(),
    }
}

/// A step that changes nothing.
pub open spec fn no_step<C>(s: TranslatorState<C>) -> StepResult<C> {
    StepResult { state: s, requests: seq![], redraw: false }
}

/// Whether an item with this reasoning text starts an enrichment when it is emitted.
pub open spec fn item_opens(enabled: bool, active: Option<ThreadId>, reasoning: Option<Seq<char>>) -> bool {
    &&& enabled
    &&& active is Some
    &&& reasoning matches Some(t) && reasoning_body(t) is Some
}

/// Appends `o` to the emitted history.
pub open spec fn emit<C>(s: TranslatorState<C>, o: EmittedView<C>) -> TranslatorState<C> {
    TranslatorState { history: s.history.push(o), ..s }
}

/// Opens a barrier for the item emitted last, whose reasoning text is `text`.
pub open spec fn begin<C>(
    s: TranslatorState<C>,
    thread_id: ThreadId,
    text: Seq<char>,
    now_ms: u64,
    max_wait_ms: u64,
) -> StepResult<C> {
    let request_id = s.seq;
    let title = bold_title(text);
    let barrier = BarrierView {
        request_id,
        thread_id,
        title,
        max_wait_ms,
        deadline_ms: now_ms.saturating_add(max_wait_ms),
    };
    let request = RequestView { request_id, thread_id, title, text, max_wait_ms };
    StepResult {
        state: TranslatorState {
            barrier: Some(barrier),
            seq: s.seq.saturating_add(1),
            triggers: s.triggers.insert(s.history.len() - 1, request_id),
            ..s
        },
        requests: seq![request],
        redraw: false,
    }
}

/// Opens a barrier for the item emitted last if it is eligible and no barrier is open.
pub open spec fn maybe_begin<C>(
    s: TranslatorState<C>,
    active: Option<ThreadId>,
    reasoning: Option<Seq<char>>,
    now_ms: u64,
    max_wait_ms: u64,
) -> StepResult<C> {
    if item_opens(s.enabled, active, reasoning) && s.barrier is None {
        begin(s, active->0, reasoning->0, now_ms, max_wait_ms)
    } else {
        no_step(s)
    }
}

/// Emits queued items in order until the queue is empty or one of them opens a barrier.
pub open spec fn flush<C>(
    s: TranslatorState<C>,
    active: Option<ThreadId>,
    now_ms: u64,
    max_wait_ms: u64,
) -> StepResult<C>
    decreases s.queue.len(),
{
    if s.queue.len() == 0 {
        no_step(s)
    } else {
        let item = s.queue[0];
        let s1 = emit(TranslatorState { queue: s.queue.drop_first(), ..s }, EmittedView::Cell(item.cell));
        if item_opens(s1.enabled, active, item.reasoning) && s1.barrier is None {
            begin(s1, active->0, item.reasoning->0, now_ms, max_wait_ms)
        } else {
            flush(s1, active, now_ms, max_wait_ms)
        }
    }
}

/// Emits an item without looking at its reasoning text, or queues it while a barrier is open.
pub open spec fn emit_item<C>(s: TranslatorState<C>, item: ItemView<C>) -> TranslatorState<C> {
    let s1 = TranslatorState { intercepted: s.intercepted.push(item.cell), ..s };
    if s.barrier is Some {
        TranslatorState { queue: s.queue.push(item), ..s1 }
    } else {
        emit(s1, EmittedView::Cell(item.cell))
    }
}

/// Intercepts an item: queues it while a barrier is open, else emits it and,
/// if it is eligible, opens a barrier for it.
pub open spec fn intercept<C>(
    s: TranslatorState<C>,
    item: ItemView<C>,
    active: Option<ThreadId>,
    now_ms: u64,
    max_wait_ms: u64,
) -> StepResult<C> {
    if s.barrier is Some {
        no_step(emit_item(s, item))
    } else {
        maybe_begin(emit_item(s, item), active, item.reasoning, now_ms, max_wait_ms)
    }
}

/// The text shown for a successful enrichment: the body of the enriched text,
/// or the raw enriched text when it has no body.
pub open spec fn enrichment_text(translated: Seq<char>) -> Seq<char> {
    match reasoning_body(translated) {
        Some(b) => b,
        None => translated,
    }
}

/// The item emitted when a completion resolves its barrier.
pub open spec fn enrichment_of<C>(m: MessageView) -> EmittedView<C> {
    match m.translated {
        Some(t) => EmittedView::Translation { request_id: m.request_id, text: enrichment_text(t) },
        None => EmittedView::Failure {
            request_id: m.request_id,
            title: m.title,
            reason: match m.error {
                Some(e) => e,
                None => "unknown error"@,
            },
        },
    }
}

/// Whether a completion resolves the open barrier: same request, same thread,
/// and that thread is the active one.
pub open spec fn matches_barrier<C>(s: TranslatorState<C>, m: MessageView, active: Option<ThreadId>) -> bool {
    &&& s.barrier matches Some(b)
    &&& b.request_id == m.request_id
    &&& b.thread_id == m.thread_id
    &&& active == Some(m.thread_id)
}

/// Applies one completion.
pub open spec fn complete<C>(
    s: TranslatorState<C>,
    m: MessageView,
    active: Option<ThreadId>,
    now_ms: u64,
    max_wait_ms: u64,
) -> StepResult<C> {
    if matches_barrier(s, m, active) {
        let s1 = emit(TranslatorState { barrier: None, ..s }, enrichment_of(m));
        let r = flush(s1, active, now_ms, max_wait_ms);
        StepResult { redraw: true, ..r }
    } else {
        no_step(s)
    }
}

/// Applies completions in order.
pub open spec fn complete_all<C>(
    s: TranslatorState<C>,
    ms: Seq<MessageView>,
    active: Option<ThreadId>,
    now_ms: u64,
    max_wait_ms: u64,
) -> StepResult<C>
    decreases ms.len(),
{
    if ms.len() == 0 {
        no_step(s)
    } else {
        let r1 = complete(s, ms[0], active, now_ms, max_wait_ms);
        let r2 = complete_all(r1.state, ms.drop_first(), active, now_ms, max_wait_ms);
        StepResult {
            state: r2.state,
            requests: r1.requests + r2.requests,
            redraw: r1.redraw || r2.redraw,
        }
    }
}

/// Applies completions in order, if translation is enabled.
pub open spec fn drain<C>(
    s: TranslatorState<C>,
    ms: Seq<MessageView>,
    active: Option<ThreadId>,
    now_ms: u64,
    max_wait_ms: u64,
) -> StepResult<C> {
    if s.enabled {
        complete_all(s, ms, active, now_ms, max_wait_ms)
    } else {
        no_step(s)
    }
}

/// The reason given when a barrier times out after `max_wait_ms`.
pub open spec fn timeout_message(max_wait_ms: u64) -> Seq<char> {
    "Translation timeout ("@ + decimal(max_wait_ms as nat) + "ms)"@
}

/// Resolves the open barrier if its deadline has passed. An open barrier keeps
/// its deadline even if translation was switched off after it opened.
pub open spec fn timeout<C>(
    s: TranslatorState<C>,
    active: Option<ThreadId>,
    now_ms: u64,
    max_wait_ms: u64,
) -> StepResult<C> {
    match s.barrier {
        Some(b) => if now_ms >= b.deadline_ms {
            let s1 = emit(
                TranslatorState { barrier: None, ..s },
                EmittedView::Failure {
                    request_id: b.request_id,
                    title: b.title,
                    reason: timeout_message(b.max_wait_ms),
                },
            );
            let r = flush(s1, active, now_ms, max_wait_ms);
            StepResult { redraw: true, ..r }
        } else {
            no_step(s)
        },
        None => no_step(s),
    }
}

/// One tick: completions first (only while translation is enabled), then the
/// deadline of the open barrier (always).
pub open spec fn tick<C>(
    s: TranslatorState<C>,
    ms: Seq<MessageView>,
    active: Option<ThreadId>,
    now_ms: u64,
    max_wait_ms: u64,
) -> StepResult<C> {
    let r1 = drain(s, ms, active, now_ms, max_wait_ms);
    let r2 = timeout(r1.state, active, now_ms, max_wait_ms);
    StepResult {
        state: r2.state,
        requests: r1.requests + r2.requests,
        redraw: r1.redraw || r2.redraw,
    }
}

/// The request id that an enrichment item resolves, if it is one.
pub open spec fn enrichment_id<C>(o: EmittedView<C>) -> Option<u64> {
    match o {
        EmittedView::Cell(_) => None,
        EmittedView::Translation { request_id, .. } => Some(request_id),
        EmittedView::Failure { request_id, .. } => Some(request_id),
    }
}

/// The intercepted items among the emitted ones, in order.
pub open spec fn cells_of<C>(h: Seq<EmittedView<C>>) -> Seq<C>
    decreases h.len(),
{
    if h.len() == 0 {
        seq![]
    } else {
        let rest = cells_of(h.drop_last());
        match h.last() {
            EmittedView::Cell(c) => rest.push(c),
            _ => rest,
        }
    }
}

/// The items waiting in a queue.
pub open spec fn queued_cells<C>(q: Seq<ItemView<C>>) -> Seq<C> {
    q.map_values(|i: ItemView<C>| i.cell)
}

/// Nothing is lost, duplicated or reordered: what was emitted, then what waits, is what came in.
pub open spec fn conserved<C>(s: TranslatorState<C>) -> bool {
    cells_of(s.history) + queued_cells(s.queue) == s.intercepted
}

/// Each enrichment sits right after the item that opened its barrier.
pub open spec fn linked<C>(s: TranslatorState<C>) -> bool {
    // Each item that opened a barrier is followed at once by the enrichment of that request,
    // unless it is still the last item emitted.
    &&& forall|k: int| #[trigger] s.triggers.contains_key(k) ==> {
        &&& 0 <= k < s.history.len()
        &&& s.history[k] is Cell
        &&& (k + 1 < s.history.len() ==> enrichment_id(s.history[k + 1]) == Some(s.triggers[k]))
    }
    // Each enrichment follows at once the item that opened its barrier.
    &&& forall|k: int| 0 <= k < s.history.len() && (#[trigger] enrichment_id(s.history[k])) is Some ==> {
        &&& k >= 1
        &&& s.triggers.contains_key(k - 1)
        &&& enrichment_id(s.history[k]) == Some(s.triggers[k - 1])
    }
    // The open barrier, and only it, belongs to the item emitted last.
    &&& match s.barrier {
        Some(b) => s.history.len() > 0 && s.triggers.contains_key(s.history.len() - 1)
            && s.triggers[s.history.len() - 1] == b.request_id,
        None => !(s.history.len() > 0 && s.triggers.contains_key(s.history.len() - 1)),
    }
}

/// The ordering guarantees, apart from the queue being empty while no barrier is open.
pub open spec fn ordered_core<C>(s: TranslatorState<C>) -> bool {
    conserved(s) && linked(s)
}

/// The ordering guarantees of a translator between calls.
pub open spec fn ordered<C>(s: TranslatorState<C>) -> bool {
    &&& ordered_core(s)
    &&& (s.queue.len() > 0 ==> s.barrier is Some)
}

proof fn lemma_cells_of_push<C>(h: Seq<EmittedView<C>>, o: EmittedView<C>)
    ensures
        cells_of(h.push(o)) == match o {
            EmittedView::Cell(c) => cells_of(h).push(c),
            _ => cells_of(h),
        },
{
    assert(h.push(o).drop_last() =~= h);
}

proof fn lemma_queued_cells_push<C>(q: Seq<ItemView<C>>, item: ItemView<C>)
    ensures
        queued_cells(q.push(item)) == queued_cells(q).push(item.cell),
{
    assert(queued_cells(q.push(item)) =~= queued_cells(q).push(item.cell));
}

proof fn lemma_queued_cells_pop<C>(q: Seq<ItemView<C>>)
    requires
        q.len() > 0,
    ensures
        queued_cells(q) == seq![q[0].cell] + queued_cells(q.drop_first()),
{
    assert(queued_cells(q) =~= seq![q[0].cell] + queued_cells(q.drop_first()));
}

/// Emitting an intercepted item while no barrier is open keeps the links.
proof fn lemma_emit_cell<C>(s: TranslatorState<C>, c: C)
    requires
        linked(s),
        s.barrier is None,
    ensures
        linked(emit(s, EmittedView::Cell(c))),
{
    let t = emit(s, EmittedView::Cell(c));
    assert forall|k: int| 0 <= k < t.history.len() && (#[trigger] enrichment_id(t.history[k])) is Some implies {
        &&& k >= 1
        &&& t.triggers.contains_key(k - 1)
        &&& enrichment_id(t.history[k]) == Some(t.triggers[k - 1])
    } by {
        assert(k < s.history.len());
        assert(t.history[k] == s.history[k]);
    }
}

/// Opening a barrier for the item emitted last keeps the guarantees.
proof fn lemma_begin<C>(s: TranslatorState<C>, thread_id: ThreadId, text: Seq<char>, now_ms: u64, max_wait_ms: u64)
    requires
        ordered_core(s),
        s.barrier is None,
        s.history.len() > 0,
        s.history.last() is Cell,
    ensures
        ordered(begin(s, thread_id, text, now_ms, max_wait_ms).state),
        begin(s, thread_id, text, now_ms, max_wait_ms).state.history == s.history,
        begin(s, thread_id, text, now_ms, max_wait_ms).state.intercepted == s.intercepted,
        begin(s, thread_id, text, now_ms, max_wait_ms).state.enabled == s.enabled,
{
    let t = begin(s, thread_id, text, now_ms, max_wait_ms).state;
    let last = s.history.len() - 1;
    assert forall|k: int| #[trigger] t.triggers.contains_key(k) implies {
        &&& 0 <= k < t.history.len()
        &&& t.history[k] is Cell
        &&& (k + 1 < t.history.len() ==> enrichment_id(t.history[k + 1]) == Some(t.triggers[k]))
    } by {
        if k != last {
            assert(s.triggers.contains_key(k));
        }
    }
    assert forall|k: int| 0 <= k < t.history.len() && (#[trigger] enrichment_id(t.history[k])) is Some implies {
        &&& k >= 1
        &&& t.triggers.contains_key(k - 1)
        &&& enrichment_id(t.history[k]) == Some(t.triggers[k - 1])
    } by {
        assert(enrichment_id(s.history[k]) is Some);
    }
}

/// Emitting the enrichment of the open barrier and closing it keeps the guarantees.
proof fn lemma_resolve<C>(s: TranslatorState<C>, o: EmittedView<C>)
    requires
        ordered_core(s),
        s.barrier is Some,
        enrichment_id(o) == Some(s.barrier->0.request_id),
    ensures
        ordered_core(emit(TranslatorState { barrier: None, ..s }, o)),
{
    let t = emit(TranslatorState { barrier: None, ..s }, o);
    let n = s.history.len();
    lemma_cells_of_push(s.history, o);
    assert forall|k: int| #[trigger] t.triggers.contains_key(k) implies {
        &&& 0 <= k < t.history.len()
        &&& t.history[k] is Cell
        &&& (k + 1 < t.history.len() ==> enrichment_id(t.history[k + 1]) == Some(t.triggers[k]))
    } by {
        assert(s.triggers.contains_key(k));
        assert(t.history[k] == s.history[k]);
        if k + 1 < n {
            assert(t.history[k + 1] == s.history[k + 1]);
        }
    }
    assert forall|k: int| 0 <= k < t.history.len() && (#[trigger] enrichment_id(t.history[k])) is Some implies {
        &&& k >= 1
        &&& t.triggers.contains_key(k - 1)
        &&& enrichment_id(t.history[k]) == Some(t.triggers[k - 1])
    } by {
        if k < n {
            assert(t.history[k] == s.history[k]);
            assert(enrichment_id(s.history[k]) is Some);
        }
    }
}

/// Flushing keeps the guarantees, emits nothing but queued items, and leaves
/// the queue empty unless it opened a barrier.
pub proof fn lemma_flush<C>(s: TranslatorState<C>, active: Option<ThreadId>, now_ms: u64, max_wait_ms: u64)
    requires
        ordered_core(s),
        s.barrier is None,
    ensures
        ordered(flush(s, active, now_ms, max_wait_ms).state),
        flush(s, active, now_ms, max_wait_ms).state.intercepted == s.intercepted,
        flush(s, active, now_ms, max_wait_ms).state.enabled == s.enabled,
        s.history.len() <= flush(s, active, now_ms, max_wait_ms).state.history.len(),
        flush(s, active, now_ms, max_wait_ms).state.history.subrange(0, s.history.len() as int) == s.history,
        forall|i: int|
            s.history.len() <= i < flush(s, active, now_ms, max_wait_ms).state.history.len()
                ==> (#[trigger] flush(s, active, now_ms, max_wait_ms).state.history[i]) is Cell,
        !flush(s, active, now_ms, max_wait_ms).redraw,
    decreases s.queue.len(),
{
    if s.queue.len() > 0 {
        let item = s.queue[0];
        let s0 = TranslatorState { queue: s.queue.drop_first(), ..s };
        let s1 = emit(s0, EmittedView::Cell(item.cell));
        lemma_queued_cells_pop(s.queue);
        lemma_emit_cell(s0, item.cell);
        lemma_cells_of_push(s.history, EmittedView::Cell(item.cell));
        assert(cells_of(s1.history) + queued_cells(s1.queue) =~= cells_of(s.history) + queued_cells(s.queue));
        if item_opens(s1.enabled, active, item.reasoning) && s1.barrier is None {
            lemma_begin(s1, active->0, item.reasoning->0, now_ms, max_wait_ms);
            assert(s1.history.subrange(0, s.history.len() as int) =~= s.history);
        } else {
            lemma_flush(s1, active, now_ms, max_wait_ms);
            let r = flush(s1, active, now_ms, max_wait_ms).state;
            assert(r.history.subrange(0, s.history.len() as int) =~= r.history.subrange(0, s1.history.len() as int).subrange(0, s.history.len() as int));
            assert(s1.history.subrange(0, s.history.len() as int) =~= s.history);
            assert forall|i: int| s.history.len() <= i < r.history.len() implies (#[trigger] r.history[i]) is Cell by {
                if i == s.history.len() {
                    assert(r.history[i] == r.history.subrange(0, s1.history.len() as int)[i]);
                }
            }
        }
    }
}

/// Intercepting an item keeps the ordering guarantees.
pub proof fn lemma_intercept_keeps_order<C>(
    s: TranslatorState<C>,
    item: ItemView<C>,
    active: Option<ThreadId>,
    now_ms: u64,
    max_wait_ms: u64,
)
    requires
        ordered(s),
    ensures
        ordered(intercept(s, item, active, now_ms, max_wait_ms).state),
        intercept(s, item, active, now_ms, max_wait_ms).state.intercepted == s.intercepted.push(item.cell),
{
    lemma_emit_item_keeps_order(s, item);
    let s1 = emit_item(s, item);
    if s.barrier is None {
        lemma_begin(s1, active->0, item.reasoning->0, now_ms, max_wait_ms);
    }
}

/// Emitting an item without its enrichment hook keeps the ordering guarantees.
pub proof fn lemma_emit_item_keeps_order<C>(s: TranslatorState<C>, item: ItemView<C>)
    requires
        ordered(s),
    ensures
        ordered(emit_item(s, item)),
        emit_item(s, item).intercepted == s.intercepted.push(item.cell),
        s.barrier is None ==> emit_item(s, item).history.last() == EmittedView::<C>::Cell(item.cell),
        s.barrier is None ==> emit_item(s, item).history.len() > 0,
        emit_item(s, item).barrier == s.barrier,
        emit_item(s, item).enabled == s.enabled,
{
    let t = emit_item(s, item);
    if s.barrier is Some {
        lemma_queued_cells_push(s.queue, item);
        assert(cells_of(t.history) + queued_cells(t.queue) =~= t.intercepted);
    } else {
        lemma_emit_cell(s, item.cell);
        lemma_cells_of_push(s.history, EmittedView::Cell(item.cell));
        assert(queued_cells(s.queue) =~= seq![]);
        assert(queued_cells(t.queue) =~= seq![]);
        assert(cells_of(t.history) + queued_cells(t.queue) =~= t.intercepted);
    }
}

/// Applying a completion keeps the ordering guarantees.
pub proof fn lemma_complete_keeps_order<C>(
    s: TranslatorState<C>,
    m: MessageView,
    active: Option<ThreadId>,
    now_ms: u64,
    max_wait_ms: u64,
)
    requires
        ordered(s),
    ensures
        ordered(complete(s, m, active, now_ms, max_wait_ms).state),
        complete(s, m, active, now_ms, max_wait_ms).state.intercepted == s.intercepted,
        complete(s, m, active, now_ms, max_wait_ms).state.enabled == s.enabled,
{
    if matches_barrier(s, m, active) {
        let o = enrichment_of::<C>(m);
        lemma_resolve(s, o);
        let s1 = emit(TranslatorState { barrier: None, ..s }, o);
        lemma_cells_of_push(s.history, o);
        lemma_flush(s1, active, now_ms, max_wait_ms);
    }
}

/// Applying completions in order keeps the ordering guarantees.
pub proof fn lemma_complete_all_keeps_order<C>(
    s: TranslatorState<C>,
    ms: Seq<MessageView>,
    active: Option<ThreadId>,
    now_ms: u64,
    max_wait_ms: u64,
)
    requires
        ordered(s),
    ensures
        ordered(complete_all(s, ms, active, now_ms, max_wait_ms).state),
        complete_all(s, ms, active, now_ms, max_wait_ms).state.intercepted == s.intercepted,
        complete_all(s, ms, active, now_ms, max_wait_ms).state.enabled == s.enabled,
    decreases ms.len(),
{
    if ms.len() > 0 {
        lemma_complete_keeps_order(s, ms[0], active, now_ms, max_wait_ms);
        let r1 = complete(s, ms[0], active, now_ms, max_wait_ms);
        lemma_complete_all_keeps_order(r1.state, ms.drop_first(), active, now_ms, max_wait_ms);
    }
}

/// A timeout keeps the ordering guarantees.
pub proof fn lemma_timeout_keeps_order<C>(
    s: TranslatorState<C>,
    active: Option<ThreadId>,
    now_ms: u64,
    max_wait_ms: u64,
)
    requires
        ordered(s),
    ensures
        ordered(timeout(s, active, now_ms, max_wait_ms).state),
        timeout(s, active, now_ms, max_wait_ms).state.intercepted == s.intercepted,
        timeout(s, active, now_ms, max_wait_ms).state.enabled == s.enabled,
{
    if let Some(b) = s.barrier {
        if now_ms >= b.deadline_ms {
            let o = EmittedView::<C>::Failure {
                request_id: b.request_id,
                title: b.title,
                reason: timeout_message(b.max_wait_ms),
            };
            lemma_resolve(s, o);
            let s1 = emit(TranslatorState { barrier: None, ..s }, o);
            lemma_cells_of_push(s.history, o);
            lemma_flush(s1, active, now_ms, max_wait_ms);
        }
    }
}

/// A tick (completions, then the deadline) keeps the ordering guarantees.
///
/// Together with [`lemma_intercept_keeps_order`] and [`lemma_emit_item_keeps_order`]
/// this states the ordering law for every sequence of calls: items are emitted in
/// the order they were intercepted, and the enrichment of an item comes right
/// after it, before any item intercepted later.
pub proof fn lemma_tick_keeps_order<C>(
    s: TranslatorState<C>,
    ms: Seq<MessageView>,
    active: Option<ThreadId>,
    now_ms: u64,
    max_wait_ms: u64,
)
    requires
        ordered(s),
    ensures
        ordered(tick(s, ms, active, now_ms, max_wait_ms).state),
        tick(s, ms, active, now_ms, max_wait_ms).state.intercepted == s.intercepted,
{
    if s.enabled {
        lemma_complete_all_keeps_order(s, ms, active, now_ms, max_wait_ms);
    }
    let r1 = drain(s, ms, active, now_ms, max_wait_ms);
    lemma_timeout_keeps_order(r1.state, active, now_ms, max_wait_ms);
}

/// In a state with the ordering guarantees, every enrichment in the output comes
/// right after the item that opened its barrier, and every item that opened a
/// barrier is followed right away by its enrichment unless that barrier is still open.
pub proof fn lemma_enrichment_follows_its_item<C>(s: TranslatorState<C>, k: int)
    requires
        ordered(s),
        0 <= k < s.history.len(),
    ensures
        enrichment_id(s.history[k]) is Some ==> k >= 1 && s.history[k - 1] is Cell
            && s.triggers.contains_key(k - 1) && enrichment_id(s.history[k]) == Some(s.triggers[k - 1]),
        s.triggers.contains_key(k) && k + 1 < s.history.len() ==> enrichment_id(s.history[k + 1])
            == Some(s.triggers[k]),
        s.triggers.contains_key(k) && k + 1 == s.history.len() ==> (s.barrier matches Some(b)
            && b.request_id == s.triggers[k]),
{
    if enrichment_id(s.history[k]) is Some {
        assert(s.triggers.contains_key(k - 1));
    }
}

/// At most one barrier: an item intercepted while a barrier is open is queued;
/// it is not emitted and starts no request.
pub proof fn lemma_open_barrier_queues<C>(
    s: TranslatorState<C>,
    item: ItemView<C>,
    active: Option<ThreadId>,
    now_ms: u64,
    max_wait_ms: u64,
)
    requires
        s.barrier is Some,
    ensures
        intercept(s, item, active, now_ms, max_wait_ms).requests.len() == 0,
        intercept(s, item, active, now_ms, max_wait_ms).state.barrier == s.barrier,
        intercept(s, item, active, now_ms, max_wait_ms).state.queue == s.queue.push(item),
        intercept(s, item, active, now_ms, max_wait_ms).state.history == s.history,
{
}

/// A completion whose request id is not that of the open barrier, or that comes
/// when no barrier is open, changes nothing and emits nothing.
pub proof fn lemma_stale_completion_ignored<C>(
    s: TranslatorState<C>,
    m: MessageView,
    active: Option<ThreadId>,
    now_ms: u64,
    max_wait_ms: u64,
)
    requires
        !(s.barrier matches Some(b) && b.request_id == m.request_id),
    ensures
        complete(s, m, active, now_ms, max_wait_ms) == no_step(s),
{
}

/// When the deadline of the open barrier has passed, the tick's timeout emits
/// exactly one failure, whose reason names the wait, and then only queued items.
pub proof fn lemma_timeout_emits_one_failure<C>(
    s: TranslatorState<C>,
    active: Option<ThreadId>,
    now_ms: u64,
    max_wait_ms: u64,
)
    requires
        ordered(s),
        s.barrier matches Some(b) && now_ms >= b.deadline_ms,
    ensures
        ({
            let b = s.barrier->0;
            let h = timeout(s, active, now_ms, max_wait_ms).state.history;
            &&& h.len() > s.history.len()
            &&& h.subrange(0, s.history.len() as int) == s.history
            &&& h[s.history.len() as int] == EmittedView::<C>::Failure {
                request_id: b.request_id,
                title: b.title,
                reason: timeout_message(b.max_wait_ms),
            }
            &&& forall|i: int| s.history.len() < i < h.len() ==> (#[trigger] h[i]) is Cell
        }),
{
    let b = s.barrier->0;
    let o = EmittedView::<C>::Failure {
        request_id: b.request_id,
        title: b.title,
        reason: timeout_message(b.max_wait_ms),
    };
    lemma_resolve(s, o);
    let s1 = emit(TranslatorState { barrier: None, ..s }, o);
    lemma_cells_of_push(s.history, o);
    lemma_flush(s1, active, now_ms, max_wait_ms);
    let h = timeout(s, active, now_ms, max_wait_ms).state.history;
    assert(h[s.history.len() as int] == h.subrange(0, s1.history.len() as int)[s.history.len() as int]);
    assert(h.subrange(0, s.history.len() as int) =~= h.subrange(0, s1.history.len() as int).subrange(0, s.history.len() as int));
    assert(s1.history.subrange(0, s.history.len() as int) =~= s.history);
}

/// A barrier that opens at `now_ms` with wait `max_wait_ms` has its deadline
/// `max_wait_ms` later (saturating), and remembers the wait for its timeout message.
pub proof fn lemma_deadline_is_wait_after_open<C>(
    s: TranslatorState<C>,
    thread_id: ThreadId,
    text: Seq<char>,
    now_ms: u64,
    max_wait_ms: u64,
)
    ensures
        ({
            let b = begin(s, thread_id, text, now_ms, max_wait_ms).state.barrier->0;
            &&& b.max_wait_ms == max_wait_ms
            &&& b.deadline_ms >= now_ms
            &&& now_ms + max_wait_ms <= u64::MAX ==> b.deadline_ms == now_ms + max_wait_ms
        }),
{
}

/// One call on a translator.
pub enum Call<C> {
    /// An item intercepted with the enrichment hook.
    Intercept { item: ItemView<C>, active: Option<ThreadId>, now_ms: u64, max_wait_ms: u64 },
    /// An item emitted without the hook.
    Emit { item: ItemView<C> },
    /// A tick with the completions received since the last one.
    Tick { messages: Seq<MessageView>, active: Option<ThreadId>, now_ms: u64, max_wait_ms: u64 },
    /// Translation switched on or off.
    SetEnabled { enabled: bool },
}

/// The state after one call.
pub open spec fn step<C>(s: TranslatorState<C>, c: Call<C>) -> TranslatorState<C> {
    match c {
        Call::Intercept { item, active, now_ms, max_wait_ms } => intercept(s, item, active, now_ms, max_wait_ms).state,
        Call::Emit { item } => emit_item(s, item),
        Call::Tick { messages, active, now_ms, max_wait_ms } => tick(s, messages, active, now_ms, max_wait_ms).state,
        Call::SetEnabled { enabled } => TranslatorState { enabled, ..s },
    }
}

/// The state after a sequence of calls.
pub open spec fn run<C>(s: TranslatorState<C>, calls: Seq<Call<C>>) -> TranslatorState<C>
    decreases calls.len(),
{
    if calls.len() == 0 {
        s
    } else {
        run(step(s, calls[0]), calls.drop_first())
    }
}

/// Ordering: for every sequence of calls on a new translator, whatever the
/// completions and whenever they arrive, the items are emitted in the order
/// they were intercepted (the rest still waiting in the queue), and the
/// enrichment of an item comes right after it, before any item intercepted later.
pub proof fn lemma_run_keeps_order<C>(enabled: bool, calls: Seq<Call<C>>)
    ensures
        ordered(run(initial_state::<C>(enabled), calls)),
{
    let s0 = initial_state::<C>(enabled);
    assert(queued_cells(s0.queue) =~= Seq::<C>::empty());
    assert(cells_of(s0.history) + queued_cells(s0.queue) =~= s0.intercepted);
    lemma_steps_keep_order(s0, calls);
}

proof fn lemma_steps_keep_order<C>(s: TranslatorState<C>, calls: Seq<Call<C>>)
    requires
        ordered(s),
    ensures
        ordered(run(s, calls)),
    decreases calls.len(),
{
    if calls.len() > 0 {
        match calls[0] {
            Call::Intercept { item, active, now_ms, max_wait_ms } => {
                lemma_intercept_keeps_order(s, item, active, now_ms, max_wait_ms);
            },
            Call::Emit { item } => {
                lemma_emit_item_keeps_order(s, item);
            },
            Call::Tick { messages, active, now_ms, max_wait_ms } => {
                lemma_tick_keeps_order(s, messages, active, now_ms, max_wait_ms);
            },
            Call::SetEnabled { enabled } => {},
        }
        lemma_steps_keep_order(step(s, calls[0]), calls.drop_first());
    }
}

/// The items emitted for a run of queued items.
pub open spec fn cells_out<C>(q: Seq<ItemView<C>>) -> Seq<EmittedView<C>> {
    q.map_values(|i: ItemView<C>| EmittedView::Cell(i.cell))
}

/// `r` is a flush that started from emitted items `h0` and queue `q`, and
/// emitted the first `n` queued items in order: it stopped right after the
/// first of them that opened a barrier (request `seq`), or emptied the queue.
pub open spec fn flushed_prefix<C>(
    h0: Seq<EmittedView<C>>,
    q: Seq<ItemView<C>>,
    enabled: bool,
    seq: u64,
    active: Option<ThreadId>,
    r: StepResult<C>,
    n: int,
) -> bool {
    &&& 0 <= n <= q.len()
    &&& r.state.history == h0 + cells_out(q.take(n))
    &&& r.state.queue == q.skip(n)
    &&& forall|i: int| 0 <= i < n && item_opens(enabled, active, (#[trigger] q[i]).reasoning) ==> i == n - 1
    &&& match r.state.barrier {
        Some(b) => {
            &&& n > 0
            &&& item_opens(enabled, active, q[n - 1].reasoning)
            &&& b.request_id == seq
            &&& r.requests.len() == 1
            &&& r.requests[0].request_id == seq
            &&& r.requests[0].text == q[n - 1].reasoning->0
        },
        None => n == q.len() && r.requests.len() == 0,
    }
}

/// A flush emits a prefix of the queue in first-in-first-out order and keeps
/// the rest queued: it stops right after the first item that opens a barrier,
/// dispatching exactly that one request, and otherwise empties the queue.
pub proof fn lemma_flush_fifo<C>(s: TranslatorState<C>, active: Option<ThreadId>, now_ms: u64, max_wait_ms: u64)
    requires
        s.barrier is None,
    ensures
        exists|n: int| flushed_prefix(s.history, s.queue, s.enabled, s.seq, active, flush(s, active, now_ms, max_wait_ms), n),
    decreases s.queue.len(),
{
    let r = flush(s, active, now_ms, max_wait_ms);
    if s.queue.len() == 0 {
        assert(r.state.history =~= s.history + cells_out(s.queue.take(0)));
        assert(r.state.queue =~= s.queue.skip(0));
        assert(flushed_prefix(s.history, s.queue, s.enabled, s.seq, active, r, 0));
    } else {
        let item = s.queue[0];
        let s1 = emit(TranslatorState { queue: s.queue.drop_first(), ..s }, EmittedView::Cell(item.cell));
        if item_opens(s1.enabled, active, item.reasoning) && s1.barrier is None {
            assert(r.state.history =~= s.history + cells_out(s.queue.take(1)));
            assert(r.state.queue =~= s.queue.skip(1));
            assert(flushed_prefix(s.history, s.queue, s.enabled, s.seq, active, r, 1));
        } else {
            lemma_flush_fifo(s1, active, now_ms, max_wait_ms);
            let n1 = choose|n1: int| flushed_prefix(s1.history, s1.queue, s1.enabled, s1.seq, active, r, n1);
            assert(cells_out(s.queue.take(n1 + 1)) =~= seq![EmittedView::Cell(item.cell)] + cells_out(s1.queue.take(n1)));
            assert(r.state.history =~= s.history + cells_out(s.queue.take(n1 + 1)));
            assert(r.state.queue =~= s.queue.skip(n1 + 1));
            assert forall|i: int| 0 <= i < n1 + 1 && item_opens(s.enabled, active, (#[trigger] s.queue[i]).reasoning) implies i == n1 by {
                if i > 0 {
                    assert(s.queue[i] == s1.queue[i - 1]);
                }
            }
            if r.state.barrier is Some {
                assert(s.queue[n1] == s1.queue[n1 - 1]);
            }
            assert(flushed_prefix(s.history, s.queue, s.enabled, s.seq, active, r, n1 + 1));
        }
    }
}

/// A completion that matches the open barrier emits its enrichment first, then
/// a first-in-first-out prefix of the queue (see [`flushed_prefix`]), and asks for a redraw.
pub proof fn lemma_completion_emits_then_flushes<C>(
    s: TranslatorState<C>,
    m: MessageView,
    active: Option<ThreadId>,
    now_ms: u64,
    max_wait_ms: u64,
)
    requires
        matches_barrier(s, m, active),
    ensures
        complete(s, m, active, now_ms, max_wait_ms).redraw,
        exists|n: int| flushed_prefix(
            s.history.push(enrichment_of::<C>(m)),
            s.queue,
            s.enabled,
            s.seq,
            active,
            complete(s, m, active, now_ms, max_wait_ms),
            n,
        ),
{
    let s1 = emit(TranslatorState { barrier: None, ..s }, enrichment_of::<C>(m));
    lemma_flush_fifo(s1, active, now_ms, max_wait_ms);
    let n = choose|n: int| flushed_prefix(s1.history, s1.queue, s1.enabled, s1.seq, active, flush(s1, active, now_ms, max_wait_ms), n);
    assert(flushed_prefix(
        s.history.push(enrichment_of::<C>(m)),
        s.queue,
        s.enabled,
        s.seq,
        active,
        complete(s, m, active, now_ms, max_wait_ms),
        n,
    ));
}

/// A timeout of the open barrier emits its failure first, then a
/// first-in-first-out prefix of the queue (see [`flushed_prefix`]), and asks for a redraw.
pub proof fn lemma_timeout_flushes_fifo<C>(
    s: TranslatorState<C>,
    active: Option<ThreadId>,
    now_ms: u64,
    max_wait_ms: u64,
)
    requires
        s.barrier matches Some(b) && now_ms >= b.deadline_ms,
    ensures
        timeout(s, active, now_ms, max_wait_ms).redraw,
        exists|n: int| flushed_prefix(
            s.history.push(EmittedView::<C>::Failure {
                request_id: s.barrier->0.request_id,
                title: s.barrier->0.title,
                reason: timeout_message(s.barrier->0.max_wait_ms),
            }),
            s.queue,
            s.enabled,
            s.seq,
            active,
            timeout(s, active, now_ms, max_wait_ms),
            n,
        ),
{
    let b = s.barrier->0;
    let o = EmittedView::<C>::Failure { request_id: b.request_id, title: b.title, reason: timeout_message(b.max_wait_ms) };
    let s1 = emit(TranslatorState { barrier: None, ..s }, o);
    lemma_flush_fifo(s1, active, now_ms, max_wait_ms);
    let n = choose|n: int| flushed_prefix(s1.history, s1.queue, s1.enabled, s1.seq, active, flush(s1, active, now_ms, max_wait_ms), n);
    assert(flushed_prefix(s.history.push(o), s.queue, s.enabled, s.seq, active, timeout(s, active, now_ms, max_wait_ms), n));
}

/// Flush then reopen: when A's completion arrives with an eligible B and an
/// ineligible C queued, the output gains A's result and B, a barrier reopens
/// for B (flushing stops), and C stays queued.
pub proof fn lemma_flush_then_reopen<C>(
    s: TranslatorState<C>,
    m: MessageView,
    b: ItemView<C>,
    c: ItemView<C>,
    active: Option<ThreadId>,
    now_ms: u64,
    max_wait_ms: u64,
)
    requires
        matches_barrier(s, m, active),
        s.queue == seq![b, c],
        item_opens(s.enabled, active, b.reasoning),
    ensures
        ({
            let r = complete(s, m, active, now_ms, max_wait_ms);
            &&& r.state.history == s.history + seq![enrichment_of::<C>(m), EmittedView::Cell(b.cell)]
            &&& r.state.queue == seq![c]
            &&& r.state.barrier matches Some(x) && x.request_id == s.seq
            &&& r.requests.len() == 1
            &&& r.requests[0].text == b.reasoning->0
        }),
{
    let s1 = emit(TranslatorState { barrier: None, ..s }, enrichment_of::<C>(m));
    let s2 = emit(TranslatorState { queue: s1.queue.drop_first(), ..s1 }, EmittedView::Cell(b.cell));
    assert(s1.queue[0] == b);
    assert(s2.queue =~= seq![c]);
    assert(s2.history =~= s.history + seq![enrichment_of::<C>(m), EmittedView::Cell(b.cell)]);
}

/// Then B's completion, with only the ineligible C queued, emits B's result
/// and C, and leaves no barrier open and nothing queued.
pub proof fn lemma_last_item_flushed<C>(
    s: TranslatorState<C>,
    m: MessageView,
    c: ItemView<C>,
    active: Option<ThreadId>,
    now_ms: u64,
    max_wait_ms: u64,
)
    requires
        matches_barrier(s, m, active),
        s.queue == seq![c],
        !item_opens(s.enabled, active, c.reasoning),
    ensures
        ({
            let r = complete(s, m, active, now_ms, max_wait_ms);
            &&& r.state.history == s.history + seq![enrichment_of::<C>(m), EmittedView::Cell(c.cell)]
            &&& r.state.queue.len() == 0
            &&& r.state.barrier is None
            &&& r.requests.len() == 0
        }),
{
    let s1 = emit(TranslatorState { barrier: None, ..s }, enrichment_of::<C>(m));
    let s2 = emit(TranslatorState { queue: s1.queue.drop_first(), ..s1 }, EmittedView::Cell(c.cell));
    assert(s1.queue[0] == c);
    assert(s2.queue =~= Seq::<ItemView<C>>::empty());
    assert(s2.history =~= s.history + seq![enrichment_of::<C>(m), EmittedView::Cell(c.cell)]);
    reveal_with_fuel(flush, 2);
}

} // verus!
