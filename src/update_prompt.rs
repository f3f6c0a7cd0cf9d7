//! The screen that offers to update the CLI.
//!
//! Drawing it and reading terminal events is the host's work; the screen
//! decides what each key does and asks for a redraw when its state changes.

use vstd::prelude::*;
use crate::keys::{KeyCode, KeyEvent, KeyEventKind};
use crate::text::concat;
use crate::update_action::{command_words, shell_join, words_chars, UpdateAction};

verus! {

/// A choice on the update screen.
#[derive(Clone, Copy, Debug, PartialEq, Eq, Structural)]
pub enum UpdateSelection {
    UpdateNow(UpdateAction),
    NotNow,
    DontRemind,
}

/// The label of each choice.
pub open spec fn selection_label(s: UpdateSelection) -> Seq<char> {
    match s {
        UpdateSelection::UpdateNow(a) => "Update now (runs `"@ + shell_join(words_chars(command_words(a))) + "`)"@,
        UpdateSelection::NotNow => "Skip"@,
        UpdateSelection::DontRemind => "Skip until next version"@,
    }
}

impl UpdateSelection {
    /// The text shown for this choice.
    pub fn label(self) -> (r: String)
        ensures
            r@ == selection_label(self),
    {
        match self {
            UpdateSelection::UpdateNow(action) => {
                let command = action.command_str();
                let head = concat("Update now (runs `", command.as_str());
                concat(head.as_str(), "`)")
            },
            UpdateSelection::NotNow => String::from_str("Skip"),
            UpdateSelection::DontRemind => String::from_str("Skip until next version"),
        }
    }
}

/// The choices offered for the given update actions: one per action, then skip and dismiss.
pub open spec fn prompt_options(actions: Seq<UpdateAction>) -> Seq<UpdateSelection> {
    actions.map_values(|a: UpdateAction| UpdateSelection::UpdateNow(a)) + seq![
        UpdateSelection::NotNow,
        UpdateSelection::DontRemind,
    ]
}

/// The first position of `s` in `opts`.
pub open spec fn first_position(opts: Seq<UpdateSelection>, s: UpdateSelection, from: int) -> Option<int>
    decreases opts.len() - from,
{
    if from < 0 || from >= opts.len() {
        None
    } else if opts[from] == s {
        Some(from)
    } else {
        first_position(opts, s, from + 1)
    }
}

/// What a key does on the screen.
pub enum KeyOutcome {
    Ignore,
    Highlight(int),
    Select(UpdateSelection),
}

/// The effect of `key` on a screen with choices `opts` and highlighted index `hi`.
pub open spec fn key_outcome(opts: Seq<UpdateSelection>, hi: int, key: KeyEvent) -> KeyOutcome {
    if key.kind == KeyEventKind::Release {
        KeyOutcome::Ignore
    } else if key.modifiers.control && (key.code == KeyCode::Char('c') || key.code == KeyCode::Char('d')) {
        KeyOutcome::Select(UpdateSelection::NotNow)
    } else {
        match key.code {
            KeyCode::Up | KeyCode::Char('k') => KeyOutcome::Highlight(
                if hi == 0 { opts.len() - 1 } else { hi - 1 },
            ),
            KeyCode::Down | KeyCode::Char('j') => KeyOutcome::Highlight((hi + 1) % (opts.len() as int)),
            KeyCode::Char(ch) => if '1' <= ch && ch <= '9' && (ch as u32 - '1' as u32) < opts.len() {
                KeyOutcome::Select(opts[(ch as u32 - '1' as u32) as int])
            } else {
                KeyOutcome::Ignore
            },
            KeyCode::Enter => KeyOutcome::Select(opts[hi]),
            KeyCode::Esc => KeyOutcome::Select(UpdateSelection::NotNow),
            _ => KeyOutcome::Ignore,
        }
    }
}

/// The first position of `s` in `opts`.
fn position_of(opts: &Vec<UpdateSelection>, s: UpdateSelection) -> (r: Option<usize>)
    ensures
        match r {
            Some(i) => first_position(opts@, s, 0) == Some(i as int) && i < opts@.len(),
            None => first_position(opts@, s, 0) is None,
        },
{
    let mut i: usize = 0;
    while i < opts.len()
        invariant
            i <= opts@.len(),
            first_position(opts@, s, 0) == first_position(opts@, s, i as int),
        decreases opts@.len() - i,
    {
        if opts[i] == s {
            return Some(i);
        }
        i = i + 1;
    }
    None
}

/// The update prompt.
pub struct UpdatePromptScreen {
    latest_version: String,
    current_version: String,
    options: Vec<UpdateSelection>,
    highlighted_idx: usize,
    selection: Option<UpdateSelection>,
    frame_requested: bool,
}

impl UpdatePromptScreen {
    pub closed spec fn options_spec(&self) -> Seq<UpdateSelection> {
        self.options@
    }

    pub closed spec fn highlighted_spec(&self) -> int {
        self.highlighted_idx as int
    }

    pub closed spec fn selection_spec(&self) -> Option<UpdateSelection> {
        self.selection
    }

    pub closed spec fn frame_requested_spec(&self) -> bool {
        self.frame_requested
    }

    pub closed spec fn latest_version_spec(&self) -> Seq<char> {
        self.latest_version@
    }

    pub closed spec fn current_version_spec(&self) -> Seq<char> {
        self.current_version@
    }

    /// The highlighted choice is one of the choices, and skip and dismiss are offered.
    pub open spec fn wf(&self) -> bool {
        &&& self.options_spec().len() >= 2
        &&& 0 <= self.highlighted_spec() < self.options_spec().len()
    }

    /// A screen for `latest_version`, seen from `current_version`, offering `update_actions`.
    pub fn new(latest_version: String, current_version: String, update_actions: Vec<UpdateAction>) -> (r: Self)
        ensures
            r.wf(),
            r.options_spec() == prompt_options(update_actions@),
            r.highlighted_spec() == 0,
            r.selection_spec() is None,
            !r.frame_requested_spec(),
            r.latest_version_spec() == latest_version@,
            r.current_version_spec() == current_version@,
    {
        let mut options: Vec<UpdateSelection> = Vec::new();
        let mut i: usize = 0;
        while i < update_actions.len()
            invariant
                i <= update_actions@.len(),
                options@ == update_actions@.take(i as int).map_values(|a: UpdateAction| UpdateSelection::UpdateNow(a)),
            decreases update_actions@.len() - i,
        {
            options.push(UpdateSelection::UpdateNow(update_actions[i]));
            assert(update_actions@.take(i + 1) =~= update_actions@.take(i as int).push(update_actions@[i as int]));
            assert(options@ =~= update_actions@.take(i + 1).map_values(|a: UpdateAction| UpdateSelection::UpdateNow(a)));
            i = i + 1;
        }
        assert(update_actions@.take(update_actions@.len() as int) =~= update_actions@);
        options.push(UpdateSelection::NotNow);
        options.push(UpdateSelection::DontRemind);
        assert(options@ =~= prompt_options(update_actions@));
        UpdatePromptScreen {
            latest_version,
            current_version,
            options,
            highlighted_idx: 0,
            selection: None,
            frame_requested: false,
        }
    }

    /// Applies a key event.
    pub fn handle_key(&mut self, key_event: KeyEvent)
        requires
            old(self).wf(),
        ensures
            final(self).wf(),
            final(self).options_spec() == old(self).options_spec(),
            final(self).latest_version_spec() == old(self).latest_version_spec(),
            match key_outcome(old(self).options_spec(), old(self).highlighted_spec(), key_event) {
                KeyOutcome::Ignore => *final(self) == *old(self),
                KeyOutcome::Highlight(i) => {
                    &&& final(self).highlighted_spec() == i
                    &&& final(self).selection_spec() == old(self).selection_spec()
                    &&& final(self).frame_requested_spec() == (old(self).frame_requested_spec()
                        || i != old(self).highlighted_spec())
                },
                KeyOutcome::Select(s) => {
                    &&& final(self).selection_spec() == Some(s)
                    &&& final(self).highlighted_spec() == match first_position(old(self).options_spec(), s, 0) {
                        Some(p) => p,
                        None => old(self).highlighted_spec(),
                    }
                    &&& final(self).frame_requested_spec()
                },
            },
    {
        if key_event.kind == KeyEventKind::Release {
            return;
        }
        if key_event.modifiers.control && (key_event.code == KeyCode::Char('c') || key_event.code == KeyCode::Char('d')) {
            self.select(UpdateSelection::NotNow);
            return;
        }
        match key_event.code {
            KeyCode::Up | KeyCode::Char('k') => self.highlight_prev(),
            KeyCode::Down | KeyCode::Char('j') => self.highlight_next(),
            KeyCode::Char(ch) => {
                if '0' <= ch && ch <= '9' {
                    self.select_by_number(ch);
                }
            },
            KeyCode::Enter => {
                let s = self.options[self.highlighted_idx];
                self.select(s);
            },
            KeyCode::Esc => self.select(UpdateSelection::NotNow),
            _ => {},
        }
    }

    /// Moves the highlight up, wrapping to the last choice.
    pub fn highlight_prev(&mut self)
        requires
            old(self).wf(),
        ensures
            final(self).wf(),
            final(self).highlighted_spec() == if old(self).highlighted_spec() == 0 {
                old(self).options_spec().len() - 1
            } else {
                old(self).highlighted_spec() - 1
            },
            final(self).frame_requested_spec() == (old(self).frame_requested_spec()
                || final(self).highlighted_spec() != old(self).highlighted_spec()),
            final(self).options_spec() == old(self).options_spec(),
            final(self).selection_spec() == old(self).selection_spec(),
            final(self).latest_version_spec() == old(self).latest_version_spec(),
    {
        let new_idx = if self.highlighted_idx == 0 {
            self.options.len() - 1
        } else {
            self.highlighted_idx - 1
        };
        self.set_highlight(new_idx);
    }

    /// Moves the highlight down, wrapping to the first choice.
    pub fn highlight_next(&mut self)
        requires
            old(self).wf(),
        ensures
            final(self).wf(),
            final(self).highlighted_spec() == (old(self).highlighted_spec() + 1) % (old(self).options_spec().len() as int),
            final(self).frame_requested_spec() == (old(self).frame_requested_spec()
                || final(self).highlighted_spec() != old(self).highlighted_spec()),
            final(self).options_spec() == old(self).options_spec(),
            final(self).selection_spec() == old(self).selection_spec(),
            final(self).latest_version_spec() == old(self).latest_version_spec(),
    {
        let n = self.options.len();
        let new_idx = (self.highlighted_idx + 1) % n;
        self.set_highlight(new_idx);
    }

    /// Highlights the choice at `idx`, asking for a redraw if that changes anything.
    fn set_highlight(&mut self, idx: usize)
        requires
            idx < old(self).options_spec().len(),
        ensures
            final(self).highlighted_spec() == idx,
            final(self).frame_requested_spec() == (old(self).frame_requested_spec()
                || idx != old(self).highlighted_spec()),
            final(self).options_spec() == old(self).options_spec(),
            final(self).selection_spec() == old(self).selection_spec(),
            final(self).latest_version_spec() == old(self).latest_version_spec(),
            final(self).current_version_spec() == old(self).current_version_spec(),
    {
        if self.highlighted_idx != idx {
            self.highlighted_idx = idx;
            self.frame_requested = true;
        }
    }

    /// Selects the choice numbered by the digit `ch` (from 1), if there is one.
    pub fn select_by_number(&mut self, ch: char)
        requires
            old(self).wf(),
        ensures
            final(self).wf(),
            final(self).options_spec() == old(self).options_spec(),
            final(self).latest_version_spec() == old(self).latest_version_spec(),
            if '1' <= ch && ch <= '9' && (ch as u32 - '1' as u32) < old(self).options_spec().len() {
                let s = old(self).options_spec()[(ch as u32 - '1' as u32) as int];
                &&& final(self).selection_spec() == Some(s)
                &&& final(self).highlighted_spec() == match first_position(old(self).options_spec(), s, 0) {
                    Some(p) => p,
                    None => old(self).highlighted_spec(),
                }
                &&& final(self).frame_requested_spec()
            } else {
                *final(self) == *old(self)
            },
    {
        if !('1' <= ch && ch <= '9') {
            return;
        }
        let idx = (ch as u32 - '1' as u32) as usize;
        if idx < self.options.len() {
            let s = self.options[idx];
            self.select(s);
        }
    }

    /// Records the choice and highlights it.
    pub fn select(&mut self, selection: UpdateSelection)
        requires
            old(self).wf(),
        ensures
            final(self).wf(),
            final(self).selection_spec() == Some(selection),
            final(self).highlighted_spec() == match first_position(old(self).options_spec(), selection, 0) {
                Some(p) => p,
                None => old(self).highlighted_spec(),
            },
            final(self).frame_requested_spec(),
            final(self).options_spec() == old(self).options_spec(),
            final(self).latest_version_spec() == old(self).latest_version_spec(),
    {
        if let Some(idx) = position_of(&self.options, selection) {
            self.highlighted_idx = idx;
        }
        self.selection = Some(selection);
        self.frame_requested = true;
    }

    /// Whether a choice was made.
    pub fn is_done(&self) -> (r: bool)
        ensures
            r == self.selection_spec() is Some,
    {
        self.selection.is_some()
    }

    /// The choice made, if any.
    pub fn selection(&self) -> (r: Option<UpdateSelection>)
        ensures
            r == self.selection_spec(),
    {
        self.selection
    }

    /// The version offered.
    pub fn latest_version(&self) -> (r: &str)
        ensures
            r@ == self.latest_version_spec(),
    {
        self.latest_version.as_str()
    }

    /// The running version.
    pub fn current_version(&self) -> (r: &str)
        ensures
            r@ == self.current_version_spec(),
    {
        self.current_version.as_str()
    }

    /// The choices, in display order.
    pub fn options(&self) -> (r: &Vec<UpdateSelection>)
        ensures
            r@ == self.options_spec(),
    {
        &self.options
    }

    /// The index of the highlighted choice.
    pub fn highlighted_idx(&self) -> (r: usize)
        ensures
            r == self.highlighted_spec(),
    {
        self.highlighted_idx
    }

    /// Whether the screen asked for a redraw since the last call; clears the request.
    pub fn take_frame_request(&mut self) -> (r: bool)
        ensures
            r == old(self).frame_requested_spec(),
            !final(self).frame_requested_spec(),
            final(self).options_spec() == old(self).options_spec(),
            final(self).highlighted_spec() == old(self).highlighted_spec(),
            final(self).selection_spec() == old(self).selection_spec(),
            final(self).latest_version_spec() == old(self).latest_version_spec(),
    {
        let r = self.frame_requested;
        self.frame_requested = false;
        r
    }
}

} // verus!
