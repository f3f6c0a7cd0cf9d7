//! The status-line segment that shows the current model.

use vstd::prelude::*;
use crate::text::{chars_of, concat, str_eq, string_from_range};

verus! {

/// Reasoning effort of the model; `NoEffort` is no reasoning.
#[derive(Debug, Clone, Copy, PartialEq, Eq, Structural)]
pub enum ReasoningEffort {
    NoEffort,
    Minimal,
    Low,
    Medium,
    High,
    XHigh,
}

/// The short suffix shown for each reasoning effort (empty for none).
pub open spec fn effort_suffix(effort: ReasoningEffort) -> &'static str {
    match effort {
        ReasoningEffort::NoEffort => "",
        ReasoningEffort::Minimal => "Minimal",
        ReasoningEffort::Low => "Low",
        ReasoningEffort::Medium => "Medium",
        ReasoningEffort::High => "High",
        ReasoningEffort::XHigh => "Xhigh",
    }
}

/// Get the short suffix for a reasoning effort level.
pub fn reasoning_effort_suffix(effort: ReasoningEffort) -> (r: &'static str)
    ensures
        r == effort_suffix(effort),
{
    match effort {
        ReasoningEffort::NoEffort => "",
        ReasoningEffort::Minimal => "Minimal",
        ReasoningEffort::Low => "Low",
        ReasoningEffort::Medium => "Medium",
        ReasoningEffort::High => "High",
        ReasoningEffort::XHigh => "Xhigh",
    }
}

/// Whether `-20` starts at position `i` of `s`.
pub open spec fn dash20_at(s: Seq<char>, i: int) -> bool {
    0 <= i && i + 3 <= s.len() && s[i] == '-' && s[i + 1] == '2' && s[i + 2] == '0'
}

/// The last position before `end` where `-20` starts.
pub open spec fn last_dash20(s: Seq<char>, end: int) -> Option<int>
    decreases end,
{
    if end <= 0 {
        None
    } else if dash20_at(s, end - 1) {
        Some(end - 1)
    } else {
        last_dash20(s, end - 1)
    }
}

/// Whether a suffix starting with `-` looks like a date: at least nine
/// characters, the eight after the dash being digits or dashes.
pub open spec fn date_like(suffix: Seq<char>) -> bool {
    suffix.len() >= 9 && forall|i: int| 1 <= i < 9 ==> ('0' <= #[trigger] suffix[i] && suffix[i] <= '9') || suffix[i] == '-'
}

/// `name` without a trailing date such as `-2025-01-15` or `-20250101`.
pub open spec fn without_date(name: Seq<char>) -> Seq<char> {
    match last_dash20(name, name.len() as int) {
        Some(p) => if date_like(name.skip(p)) {
            name.take(p)
        } else {
            name
        },
        None => name,
    }
}

/// The display name of the known models.
pub open spec fn model_alias(name: Seq<char>) -> Option<Seq<char>> {
    if name == "gpt-5.2-codex"@ {
        Some("GPT 5.2 Codex"@)
    } else if name == "gpt-5.1-codex-max"@ {
        Some("GPT 5.1 Codex Max"@)
    } else if name == "gpt-5.1-codex-mini"@ {
        Some("GPT 5.1 Codex Mini"@)
    } else if name == "gpt-5.2"@ {
        Some("GPT 5.2"@)
    } else if name == "gpt-5-codex"@ {
        Some("GPT 5 Codex"@)
    } else if name == "gpt-5-codex-mini"@ {
        Some("GPT 5 Codex Mini"@)
    } else if name == "gpt-5.1-codex"@ {
        Some("GPT 5.1 Codex"@)
    } else if name == "gpt-5"@ {
        Some("GPT 5"@)
    } else if name == "gpt-5.1"@ {
        Some("GPT 5.1"@)
    } else {
        None
    }
}

/// The name shown for a model: its date suffix removed, then known names mapped.
pub open spec fn simplified_name(name: Seq<char>) -> Seq<char> {
    let base = without_date(name);
    match model_alias(base) {
        Some(a) => a,
        None => base,
    }
}

proof fn lemma_last_dash20_bound(s: Seq<char>, end: int)
    ensures
        last_dash20(s, end) matches Some(p) ==> 0 <= p < end && dash20_at(s, p),
    decreases end,
{
    if end > 0 && !dash20_at(s, end - 1) {
        lemma_last_dash20_bound(s, end - 1);
    }
}

/// The last position where `-20` starts in `v`.
fn find_last_dash20(v: &Vec<char>) -> (r: Option<usize>)
    ensures
        match r {
            Some(p) => last_dash20(v@, v@.len() as int) == Some(p as int) && p < v@.len(),
            None => last_dash20(v@, v@.len() as int) is None,
        },
{
    let n = v.len();
    let mut end: usize = n;
    proof {
        lemma_last_dash20_bound(v@, n as int);
    }
    while end > 0
        invariant
            end <= n,
            n == v@.len(),
            last_dash20(v@, n as int) == last_dash20(v@, end as int),
        decreases end,
    {
        let i = end - 1;
        if n - i >= 3 && v[i] == '-' && v[i + 1] == '2' && v[i + 2] == '0' {
            return Some(i);
        }
        end = end - 1;
    }
    None
}

/// Whether `v[p..]` looks like a date suffix.
fn is_date_suffix(v: &Vec<char>, p: usize) -> (r: bool)
    requires
        p < v@.len(),
    ensures
        r == date_like(v@.skip(p as int)),
{
    let n = v.len();
    if n - p < 9 {
        return false;
    }
    let mut k: usize = 1;
    while k < 9
        invariant
            n == v@.len(),
            n - p >= 9,
            1 <= k <= 9,
            forall|i: int| 1 <= i < k ==> ('0' <= #[trigger] v@.skip(p as int)[i] && v@.skip(p as int)[i] <= '9') || v@.skip(p as int)[i] == '-',
        decreases 9 - k,
    {
        let c = v[p + k];
        assert(v@.skip(p as int)[k as int] == c);
        if !(('0' <= c && c <= '9') || c == '-') {
            return false;
        }
        k = k + 1;
    }
    true
}

/// Simplifies a model name, e.g. `gpt-5.2-codex-2025-01-15` to `GPT 5.2 Codex`.
pub fn simplify_model_name(name: &str) -> (r: String)
    ensures
        r@ == simplified_name(name@),
{
    let v = chars_of(name);
    let n = v.len();
    // Remove a date suffix: -YYYYMMDD or -YYYY-MM-DD.
    let base_len: usize = match find_last_dash20(&v) {
        Some(p) => if is_date_suffix(&v, p) {
            p
        } else {
            n
        },
        None => n,
    };
    let base = string_from_range(&v, 0, base_len);
    assert(v@.subrange(0, n as int) =~= v@);
    assert(base@ =~= without_date(v@));
    let b = base.as_str();
    if str_eq(b, "gpt-5.2-codex") {
        String::from_str("GPT 5.2 Codex")
    } else if str_eq(b, "gpt-5.1-codex-max") {
        String::from_str("GPT 5.1 Codex Max")
    } else if str_eq(b, "gpt-5.1-codex-mini") {
        String::from_str("GPT 5.1 Codex Mini")
    } else if str_eq(b, "gpt-5.2") {
        String::from_str("GPT 5.2")
    } else if str_eq(b, "gpt-5-codex") {
        String::from_str("GPT 5 Codex")
    } else if str_eq(b, "gpt-5-codex-mini") {
        String::from_str("GPT 5 Codex Mini")
    } else if str_eq(b, "gpt-5.1-codex") {
        String::from_str("GPT 5.1 Codex")
    } else if str_eq(b, "gpt-5") {
        String::from_str("GPT 5")
    } else if str_eq(b, "gpt-5.1") {
        String::from_str("GPT 5.1")
    } else {
        base
    }
}

/// The text and metadata of a status-line segment.
pub struct SegmentData {
    pub text: String,
    /// The full model id.
    pub model_id: String,
}

/// The text shown for a model and reasoning effort.
pub open spec fn model_segment_text(name: Seq<char>, effort: Option<ReasoningEffort>) -> Seq<char> {
    match effort {
        Some(e) => if effort_suffix(e)@.len() == 0 {
            simplified_name(name)
        } else {
            simplified_name(name) + " "@ + effort_suffix(e)@
        },
        None => simplified_name(name),
    }
}

/// The status-line segment that shows the current model.
pub struct ModelSegment;

impl ModelSegment {
    /// The segment for the given model and reasoning effort; none when the model name is empty.
    pub fn collect(&self, model_name: &str, reasoning_effort: Option<ReasoningEffort>) -> (r: Option<SegmentData>)
        ensures
            match r {
                Some(d) => model_name@.len() > 0 && d.text@ == model_segment_text(model_name@, reasoning_effort)
                    && d.model_id@ == model_name@,
                None => model_name@.len() == 0,
            },
    {
        if model_name.is_empty() {
            return None;
        }
        let display_name = simplify_model_name(model_name);
        let text = match reasoning_effort {
            Some(effort) => {
                let suffix = reasoning_effort_suffix(effort);
                if suffix.is_empty() {
                    display_name
                } else {
                    let spaced = concat(display_name.as_str(), " ");
                    concat(spaced.as_str(), suffix)
                }
            },
            None => display_name,
        };
        Some(SegmentData { text, model_id: String::from_str(model_name) })
    }
}

} // verus!
