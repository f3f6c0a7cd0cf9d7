//! Splits a reasoning block into its bold title and the body that follows it.
//!
//! The delimiter is `**`. Only the first delimiter pair counts: the first `**`
//! opens it and the next `**` after it closes it; nesting is not recognised.

use vstd::prelude::*;
use crate::text::{chars_of, copy_range, string_from_range, trim, trim_bounds, trim_start, trim_start_bound};

verus! {

/// Whether a `**` delimiter starts at position `i` of `s`.
pub open spec fn delim_at(s: Seq<char>, i: int) -> bool {
    0 <= i && i + 1 < s.len() && s[i] == '*' && s[i + 1] == '*'
}

/// The first position at or after `from` where a delimiter starts.
pub open spec fn first_delim(s: Seq<char>, from: int) -> Option<int>
    decreases s.len() - from,
{
    if from < 0 || from + 1 >= s.len() {
        None
    } else if delim_at(s, from) {
        Some(from)
    } else {
        first_delim(s, from + 1)
    }
}

/// The first delimiter pair of `s`, as (start of its content, start of the closing delimiter).
pub open spec fn bold_span(s: Seq<char>) -> Option<(int, int)> {
    match first_delim(s, 0) {
        Some(o) => match first_delim(s, o + 2) {
            Some(c) => Some((o + 2, c)),
            None => None,
        },
        None => None,
    }
}

/// The title of `s`: the trimmed content of its first delimiter pair, if that is not empty.
pub open spec fn bold_title(s: Seq<char>) -> Option<Seq<char>> {
    match bold_span(s) {
        Some((a, c)) => {
            let t = trim(s.subrange(a, c));
            if t.len() > 0 {
                Some(t)
            } else {
                None
            }
        },
        None => None,
    }
}

/// The body of `s`: what follows the first delimiter pair of the trimmed text,
/// without leading whitespace, if that is not empty.
pub open spec fn reasoning_body(s: Seq<char>) -> Option<Seq<char>> {
    let t = trim(s);
    match bold_span(t) {
        Some((_a, c)) => {
            let b = trim_start(t.subrange(c + 2, t.len() as int));
            if b.len() > 0 {
                Some(b)
            } else {
                None
            }
        },
        None => None,
    }
}

/// The characters held by an optional string.
pub open spec fn opt_chars(o: Option<String>) -> Option<Seq<char>> {
    match o {
        Some(x) => Some(x@),
        None => None,
    }
}

proof fn lemma_first_delim_bound(s: Seq<char>, from: int)
    ensures
        first_delim(s, from) matches Some(j) ==> from <= j && delim_at(s, j),
    decreases s.len() - from,
{
    if !(from < 0 || from + 1 >= s.len()) && !delim_at(s, from) {
        lemma_first_delim_bound(s, from + 1);
    }
}

/// The first position at or after `from` where a `**` delimiter starts in `v`.
fn find_delim(v: &Vec<char>, from: usize) -> (r: Option<usize>)
    ensures
        match r {
            Some(j) => first_delim(v@, from as int) == Some(j as int) && j + 1 < v@.len(),
            None => first_delim(v@, from as int) is None,
        },
{
    let n = v.len();
    let mut i: usize = from;
    proof {
        lemma_first_delim_bound(v@, from as int);
    }
    while i < n && i + 1 < n
        invariant
            from <= i,
            n == v@.len(),
            first_delim(v@, from as int) == first_delim(v@, i as int),
        decreases n - i,
    {
        if v[i] == '*' && v[i + 1] == '*' {
            return Some(i);
        }
        i = i + 1;
    }
    None
}

/// The positions (start of content, start of closing delimiter) of the first delimiter pair.
fn find_span(v: &Vec<char>) -> (r: Option<(usize, usize)>)
    ensures
        match r {
            Some((a, c)) => bold_span(v@) == Some((a as int, c as int)) && a <= c && c + 2 <= v@.len(),
            None => bold_span(v@) is None,
        },
{
    let n = v.len();
    proof {
        lemma_first_delim_bound(v@, 0);
    }
    match find_delim(v, 0) {
        Some(o) => {
            proof {
                lemma_first_delim_bound(v@, o + 2);
            }
            assert(o + 2 <= n);
            match find_delim(v, o + 2) {
                Some(c) => Some((o + 2, c)),
                None => None,
            }
        },
        None => None,
    }
}

/// Extracts the first bold span (e.g. `Thinking` from `**Thinking**`), trimmed.
pub fn extract_first_bold(s: &str) -> (r: Option<String>)
    ensures
        opt_chars(r) == bold_title(s@),
{
    let v = chars_of(s);
    match find_span(&v) {
        Some((a, c)) => {
            let (lo, hi) = trim_bounds(&v, a, c);
            if lo < hi {
                Some(string_from_range(&v, lo, hi))
            } else {
                None
            }
        },
        None => None,
    }
}

/// Extracts the reasoning body: the text after the first `**title**`, without leading whitespace.
pub fn extract_reasoning_body(full_reasoning: &str) -> (r: Option<String>)
    ensures
        opt_chars(r) == reasoning_body(full_reasoning@),
{
    let all = chars_of(full_reasoning);
    let (lo, hi) = trim_bounds(&all, 0, all.len());
    assert(all@.subrange(0, all@.len() as int) =~= all@);
    let t = copy_range(&all, lo, hi);
    match find_span(&t) {
        Some((_a, c)) => {
            let b = trim_start_bound(&t, c + 2, t.len());
            if b < t.len() {
                Some(string_from_range(&t, b, t.len()))
            } else {
                None
            }
        },
        None => None,
    }
}

/// Splits a reasoning block into its title and its body.
pub fn split(text: &str) -> (r: (Option<String>, Option<String>))
    ensures
        opt_chars(r.0) == bold_title(text@),
        opt_chars(r.1) == reasoning_body(text@),
{
    (extract_first_bold(text), extract_reasoning_body(text))
}

} // verus!
