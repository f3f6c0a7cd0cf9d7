//! The translation settings overlay: navigation, editing and the settings it produces.
//!
//! Drawing the overlay and saving the settings to disk are the host's work;
//! [`TranslateOverlay::handle_event`] says when to do either.

use vstd::prelude::*;
use crate::config::{selected_provider, TranslationConfig};
use crate::keys::{KeyCode, KeyEvent, KeyEventKind};
use crate::provider::{all_providers, provider_def, provider_str, ProviderId};
use crate::splitter::opt_chars;
use crate::text::{char_is_control, chars_of, concat, is_control, str_eq, string_from_chars, string_from_range};

verus! {

/// Supported target languages.
#[derive(Debug, Clone, Copy, PartialEq, Eq, Structural)]
pub enum TargetLanguage {
    ChineseSimplified,
    ChineseTraditional,
    Japanese,
    Korean,
    English,
    Spanish,
    French,
    German,
    Russian,
    Portuguese,
    Italian,
    Arabic,
    Hindi,
    Vietnamese,
    Thai,
}

/// Every target language, in display order.
pub open spec fn all_languages() -> Seq<TargetLanguage> {
    seq![
        TargetLanguage::ChineseSimplified,
        TargetLanguage::ChineseTraditional,
        TargetLanguage::Japanese,
        TargetLanguage::Korean,
        TargetLanguage::English,
        TargetLanguage::Spanish,
        TargetLanguage::French,
        TargetLanguage::German,
        TargetLanguage::Russian,
        TargetLanguage::Portuguese,
        TargetLanguage::Italian,
        TargetLanguage::Arabic,
        TargetLanguage::Hindi,
        TargetLanguage::Vietnamese,
        TargetLanguage::Thai,
    ]
}

/// The language code of each language.
pub open spec fn language_code(l: TargetLanguage) -> &'static str {
    match l {
        TargetLanguage::ChineseSimplified => "zh-CN",
        TargetLanguage::ChineseTraditional => "zh-TW",
        TargetLanguage::Japanese => "ja",
        TargetLanguage::Korean => "ko",
        TargetLanguage::English => "en",
        TargetLanguage::Spanish => "es",
        TargetLanguage::French => "fr",
        TargetLanguage::German => "de",
        TargetLanguage::Russian => "ru",
        TargetLanguage::Portuguese => "pt",
        TargetLanguage::Italian => "it",
        TargetLanguage::Arabic => "ar",
        TargetLanguage::Hindi => "hi",
        TargetLanguage::Vietnamese => "vi",
        TargetLanguage::Thai => "th",
    }
}

/// The display name of each language.
pub open spec fn language_name(l: TargetLanguage) -> &'static str {
    match l {
        TargetLanguage::ChineseSimplified => "Chinese (Simplified)",
        TargetLanguage::ChineseTraditional => "Chinese (Traditional)",
        TargetLanguage::Japanese => "Japanese",
        TargetLanguage::Korean => "Korean",
        TargetLanguage::English => "English",
        TargetLanguage::Spanish => "Spanish",
        TargetLanguage::French => "French",
        TargetLanguage::German => "German",
        TargetLanguage::Russian => "Russian",
        TargetLanguage::Portuguese => "Portuguese",
        TargetLanguage::Italian => "Italian",
        TargetLanguage::Arabic => "Arabic",
        TargetLanguage::Hindi => "Hindi",
        TargetLanguage::Vietnamese => "Vietnamese",
        TargetLanguage::Thai => "Thai",
    }
}

/// The language with the given code.
pub open spec fn language_for_code(code: Seq<char>) -> Option<TargetLanguage> {
    if code == "zh-CN"@ {
        Some(TargetLanguage::ChineseSimplified)
    } else if code == "zh-TW"@ {
        Some(TargetLanguage::ChineseTraditional)
    } else if code == "ja"@ {
        Some(TargetLanguage::Japanese)
    } else if code == "ko"@ {
        Some(TargetLanguage::Korean)
    } else if code == "en"@ {
        Some(TargetLanguage::English)
    } else if code == "es"@ {
        Some(TargetLanguage::Spanish)
    } else if code == "fr"@ {
        Some(TargetLanguage::French)
    } else if code == "de"@ {
        Some(TargetLanguage::German)
    } else if code == "ru"@ {
        Some(TargetLanguage::Russian)
    } else if code == "pt"@ {
        Some(TargetLanguage::Portuguese)
    } else if code == "it"@ {
        Some(TargetLanguage::Italian)
    } else if code == "ar"@ {
        Some(TargetLanguage::Arabic)
    } else if code == "hi"@ {
        Some(TargetLanguage::Hindi)
    } else if code == "vi"@ {
        Some(TargetLanguage::Vietnamese)
    } else if code == "th"@ {
        Some(TargetLanguage::Thai)
    } else {
        None
    }
}

impl TargetLanguage {
    /// All languages, in display order.
    pub fn all() -> (r: Vec<TargetLanguage>)
        ensures
            r@ == all_languages(),
    {
        let r = vec![
            TargetLanguage::ChineseSimplified,
            TargetLanguage::ChineseTraditional,
            TargetLanguage::Japanese,
            TargetLanguage::Korean,
            TargetLanguage::English,
            TargetLanguage::Spanish,
            TargetLanguage::French,
            TargetLanguage::German,
            TargetLanguage::Russian,
            TargetLanguage::Portuguese,
            TargetLanguage::Italian,
            TargetLanguage::Arabic,
            TargetLanguage::Hindi,
            TargetLanguage::Vietnamese,
            TargetLanguage::Thai,
        ];
        assert(r@ =~= all_languages());
        r
    }

    /// The position of this language in [`TargetLanguage::all`].
    pub fn index(self) -> (r: usize)
        ensures
            r < all_languages().len(),
            all_languages()[r as int] == self,
    {
        match self {
            Self::ChineseSimplified => 0,
            Self::ChineseTraditional => 1,
            Self::Japanese => 2,
            Self::Korean => 3,
            Self::English => 4,
            Self::Spanish => 5,
            Self::French => 6,
            Self::German => 7,
            Self::Russian => 8,
            Self::Portuguese => 9,
            Self::Italian => 10,
            Self::Arabic => 11,
            Self::Hindi => 12,
            Self::Vietnamese => 13,
            Self::Thai => 14,
        }
    }

    /// The language code, e.g. `zh-CN`.
    pub fn code(self) -> (r: &'static str)
        ensures
            r == language_code(self),
    {
        match self {
            Self::ChineseSimplified => "zh-CN",
            Self::ChineseTraditional => "zh-TW",
            Self::Japanese => "ja",
            Self::Korean => "ko",
            Self::English => "en",
            Self::Spanish => "es",
            Self::French => "fr",
            Self::German => "de",
            Self::Russian => "ru",
            Self::Portuguese => "pt",
            Self::Italian => "it",
            Self::Arabic => "ar",
            Self::Hindi => "hi",
            Self::Vietnamese => "vi",
            Self::Thai => "th",
        }
    }

    /// The display name, e.g. `Chinese (Simplified)`.
    pub fn name(self) -> (r: &'static str)
        ensures
            r == language_name(self),
    {
        match self {
            Self::ChineseSimplified => "Chinese (Simplified)",
            Self::ChineseTraditional => "Chinese (Traditional)",
            Self::Japanese => "Japanese",
            Self::Korean => "Korean",
            Self::English => "English",
            Self::Spanish => "Spanish",
            Self::French => "French",
            Self::German => "German",
            Self::Russian => "Russian",
            Self::Portuguese => "Portuguese",
            Self::Italian => "Italian",
            Self::Arabic => "Arabic",
            Self::Hindi => "Hindi",
            Self::Vietnamese => "Vietnamese",
            Self::Thai => "Thai",
        }
    }

    /// The language with the given code.
    pub fn from_code(code: &str) -> (r: Option<Self>)
        ensures
            r == language_for_code(code@),
    {
        if str_eq(code, "zh-CN") {
            Some(Self::ChineseSimplified)
        } else if str_eq(code, "zh-TW") {
            Some(Self::ChineseTraditional)
        } else if str_eq(code, "ja") {
            Some(Self::Japanese)
        } else if str_eq(code, "ko") {
            Some(Self::Korean)
        } else if str_eq(code, "en") {
            Some(Self::English)
        } else if str_eq(code, "es") {
            Some(Self::Spanish)
        } else if str_eq(code, "fr") {
            Some(Self::French)
        } else if str_eq(code, "de") {
            Some(Self::German)
        } else if str_eq(code, "ru") {
            Some(Self::Russian)
        } else if str_eq(code, "pt") {
            Some(Self::Portuguese)
        } else if str_eq(code, "it") {
            Some(Self::Italian)
        } else if str_eq(code, "ar") {
            Some(Self::Arabic)
        } else if str_eq(code, "hi") {
            Some(Self::Hindi)
        } else if str_eq(code, "vi") {
            Some(Self::Vietnamese)
        } else if str_eq(code, "th") {
            Some(Self::Thai)
        } else {
            None
        }
    }
}

/// The setting that the overlay has selected.
#[derive(Debug, Clone, Copy, PartialEq, Eq, Structural)]
pub enum Selection {
    Enabled,
    Provider,
    ApiKey,
    Model,
    Language,
    BaseUrl,
}

/// The setting below `s`, wrapping around.
pub open spec fn selection_after(s: Selection) -> Selection {
    match s {
        Selection::Enabled => Selection::Provider,
        Selection::Provider => Selection::ApiKey,
        Selection::ApiKey => Selection::Model,
        Selection::Model => Selection::Language,
        Selection::Language => Selection::BaseUrl,
        Selection::BaseUrl => Selection::Enabled,
    }
}

/// The setting above `s`, wrapping around.
pub open spec fn selection_before(s: Selection) -> Selection {
    match s {
        Selection::Enabled => Selection::BaseUrl,
        Selection::Provider => Selection::Enabled,
        Selection::ApiKey => Selection::Provider,
        Selection::Model => Selection::ApiKey,
        Selection::Language => Selection::Model,
        Selection::BaseUrl => Selection::Language,
    }
}

impl Selection {
    /// The next setting, wrapping around.
    pub fn next(self) -> (r: Self)
        ensures
            r == selection_after(self),
    {
        match self {
            Selection::Enabled => Selection::Provider,
            Selection::Provider => Selection::ApiKey,
            Selection::ApiKey => Selection::Model,
            Selection::Model => Selection::Language,
            Selection::Language => Selection::BaseUrl,
            Selection::BaseUrl => Selection::Enabled,
        }
    }

    /// The previous setting, wrapping around.
    pub fn prev(self) -> (r: Self)
        ensures
            r == selection_before(self),
    {
        match self {
            Selection::Enabled => Selection::BaseUrl,
            Selection::Provider => Selection::Enabled,
            Selection::ApiKey => Selection::Provider,
            Selection::Model => Selection::ApiKey,
            Selection::Language => Selection::Model,
            Selection::BaseUrl => Selection::Language,
        }
    }
}

/// Input mode for text fields.
#[derive(Debug, Clone, Copy, PartialEq, Eq, Structural)]
pub enum InputMode {
    /// Navigation between settings.
    Normal,
    /// Editing a text field.
    Editing,
}

/// Whether the API key is configured, as the provider line shows it.
#[derive(Debug, Clone, Copy, PartialEq, Eq, Structural)]
pub enum KeyStatus {
    NoKeyNeeded,
    Configured,
    Required,
}

impl KeyStatus {
    /// The text shown for this status.
    pub fn label(self) -> (r: &'static str)
        ensures
            r == match self {
                KeyStatus::NoKeyNeeded => "○ No Key Needed",
                KeyStatus::Configured => "✓ Key Configured",
                KeyStatus::Required => "✗ Key Required",
            },
    {
        match self {
            KeyStatus::NoKeyNeeded => "○ No Key Needed",
            KeyStatus::Configured => "✓ Key Configured",
            KeyStatus::Required => "✗ Key Required",
        }
    }
}

/// An event for the overlay.
pub enum OverlayEvent {
    Key(KeyEvent),
    Paste(String),
    Draw,
}

/// What the host should do after an event.
#[derive(Debug, Clone, Copy, PartialEq, Eq, Structural)]
pub struct OverlayResponse {
    /// Save the settings from [`TranslateOverlay::config`], then report with
    /// [`TranslateOverlay::set_save_result`].
    pub save: bool,
    /// Schedule a redraw.
    pub schedule_frame: bool,
    /// Draw the overlay now.
    pub draw: bool,
}

/// The state of the overlay.
pub struct OverlayView {
    pub enabled: bool,
    pub provider_id: ProviderId,
    pub provider_index: int,
    pub api_key: Seq<char>,
    pub model: Seq<char>,
    pub base_url: Seq<char>,
    pub language: TargetLanguage,
    pub language_index: int,
    pub selection: Selection,
    pub input_mode: InputMode,
    /// Cursor position in the field being edited, in characters.
    pub cursor: int,
    pub is_done: bool,
    pub status_message: Option<Seq<char>>,
    pub modified: bool,
}

/// Whether `s` is one of the text fields.
pub open spec fn is_text_field(s: Selection) -> bool {
    s == Selection::ApiKey || s == Selection::Model || s == Selection::BaseUrl
}

/// The text of the selected field (empty for settings that are not text).
pub open spec fn current_text(v: OverlayView) -> Seq<char> {
    match v.selection {
        Selection::ApiKey => v.api_key,
        Selection::Model => v.model,
        Selection::BaseUrl => v.base_url,
        _ => seq![],
    }
}

/// `v` with the selected text field set to `t`.
pub open spec fn with_current_text(v: OverlayView, t: Seq<char>) -> OverlayView {
    match v.selection {
        Selection::ApiKey => OverlayView { api_key: t, ..v },
        Selection::Model => OverlayView { model: t, ..v },
        Selection::BaseUrl => OverlayView { base_url: t, ..v },
        _ => v,
    }
}

/// The indices match the selected provider and language, and while editing
/// a text field is selected and the cursor lies within it.
pub open spec fn overlay_wf(v: OverlayView) -> bool {
    &&& 0 <= v.provider_index < all_providers().len()
    &&& all_providers()[v.provider_index] == v.provider_id
    &&& 0 <= v.language_index < all_languages().len()
    &&& all_languages()[v.language_index] == v.language
    &&& 0 <= v.cursor
    &&& (v.input_mode == InputMode::Editing ==> is_text_field(v.selection) && v.cursor
        <= current_text(v).len())
}

pub open spec fn toggled(v: OverlayView) -> OverlayView {
    OverlayView { enabled: !v.enabled, modified: true, ..v }
}

/// Enter on a setting: edit a text field, toggle the switch, else nothing.
pub open spec fn entered(v: OverlayView) -> OverlayView {
    if is_text_field(v.selection) {
        OverlayView { input_mode: InputMode::Editing, cursor: current_text(v).len() as int, ..v }
    } else if v.selection == Selection::Enabled {
        toggled(v)
    } else {
        v
    }
}

/// Left (`forward` false) or right (`forward` true) on a setting.
pub open spec fn adjusted(v: OverlayView, forward: bool) -> OverlayView {
    match v.selection {
        Selection::Enabled => toggled(v),
        Selection::Provider => {
            let n = all_providers().len() as int;
            let i = if forward { (v.provider_index + 1) % n } else { (v.provider_index + n - 1) % n };
            OverlayView { provider_index: i, provider_id: all_providers()[i], modified: true, ..v }
        },
        Selection::Language => {
            let n = all_languages().len() as int;
            let i = if forward { (v.language_index + 1) % n } else { (v.language_index + n - 1) % n };
            OverlayView { language_index: i, language: all_languages()[i], modified: true, ..v }
        },
        _ => v,
    }
}

pub open spec fn inserted(v: OverlayView, c: char) -> OverlayView {
    if v.cursor <= current_text(v).len() {
        with_current_text(OverlayView { cursor: v.cursor + 1, ..v }, current_text(v).insert(v.cursor, c))
    } else {
        v
    }
}

/// `s` without its control characters.
pub open spec fn without_controls(s: Seq<char>) -> Seq<char>
    decreases s.len(),
{
    if s.len() == 0 {
        seq![]
    } else {
        let rest = without_controls(s.drop_last());
        if is_control(s.last()) {
            rest
        } else {
            rest.push(s.last())
        }
    }
}

pub open spec fn pasted(v: OverlayView, text: Seq<char>) -> OverlayView {
    let clean = without_controls(text);
    let t = current_text(v);
    if clean.len() == 0 || v.cursor > t.len() {
        v
    } else {
        with_current_text(
            OverlayView { cursor: v.cursor + clean.len(), modified: true, ..v },
            t.take(v.cursor) + clean + t.skip(v.cursor),
        )
    }
}

pub open spec fn deleted_before(v: OverlayView) -> OverlayView {
    if v.cursor > 0 {
        with_current_text(OverlayView { cursor: v.cursor - 1, ..v }, current_text(v).remove(v.cursor - 1))
    } else {
        v
    }
}

pub open spec fn deleted_at(v: OverlayView) -> OverlayView {
    if v.cursor < current_text(v).len() {
        with_current_text(v, current_text(v).remove(v.cursor))
    } else {
        v
    }
}

pub open spec fn moved_left(v: OverlayView) -> OverlayView {
    if v.cursor > 0 {
        OverlayView { cursor: v.cursor - 1, ..v }
    } else {
        v
    }
}

pub open spec fn moved_right(v: OverlayView) -> OverlayView {
    if v.cursor < current_text(v).len() {
        OverlayView { cursor: v.cursor + 1, ..v }
    } else {
        v
    }
}

/// A key in navigation mode: the new state, and whether to save.
pub open spec fn normal_key(v: OverlayView, code: KeyCode) -> (OverlayView, bool) {
    match code {
        KeyCode::Esc | KeyCode::Char('q') => (OverlayView { is_done: true, ..v }, false),
        KeyCode::Up | KeyCode::Char('k') => (OverlayView { selection: selection_before(v.selection), ..v }, false),
        KeyCode::Down | KeyCode::Char('j') => (OverlayView { selection: selection_after(v.selection), ..v }, false),
        KeyCode::Left | KeyCode::Char('h') => (adjusted(v, false), false),
        KeyCode::Right | KeyCode::Char('l') => (adjusted(v, true), false),
        KeyCode::Enter => (entered(v), false),
        KeyCode::Char(' ') => if v.selection == Selection::Enabled {
            (toggled(v), false)
        } else {
            (entered(v), false)
        },
        KeyCode::Char('s') | KeyCode::Char('S') => (v, true),
        _ => (v, false),
    }
}

/// A key while editing a text field.
pub open spec fn editing_key(v: OverlayView, code: KeyCode) -> OverlayView {
    match code {
        KeyCode::Esc => OverlayView { input_mode: InputMode::Normal, ..v },
        KeyCode::Enter => OverlayView { input_mode: InputMode::Normal, modified: true, ..v },
        KeyCode::Char(c) => inserted(v, c),
        KeyCode::Backspace => deleted_before(v),
        KeyCode::Delete => deleted_at(v),
        KeyCode::Left => moved_left(v),
        KeyCode::Right => moved_right(v),
        KeyCode::Home => OverlayView { cursor: 0, ..v },
        KeyCode::End => OverlayView { cursor: current_text(v).len() as int, ..v },
        _ => v,
    }
}

/// A key event: only presses and repeats count.
pub open spec fn key_effect(v: OverlayView, key: KeyEvent) -> (OverlayView, bool) {
    if key.kind != KeyEventKind::Press && key.kind != KeyEventKind::Repeat {
        (v, false)
    } else if v.input_mode == InputMode::Normal {
        normal_key(v, key.code)
    } else {
        (editing_key(v, key.code), false)
    }
}

/// The text shown for a field: in full while editing, masked for a secret,
/// `(not set)` when empty.
pub open spec fn shown_value(value: Seq<char>, masked: bool, editing: bool) -> Seq<char> {
    if editing {
        value
    } else if masked && value.len() > 0 {
        masked_key(value)
    } else if value.len() == 0 {
        "(not set)"@
    } else {
        value
    }
}

/// A key shown as stars when short, else as its first and last four characters.
pub open spec fn masked_key(key: Seq<char>) -> Seq<char> {
    if key.len() <= 8 {
        Seq::new(key.len(), |i: int| '*')
    } else {
        key.take(4) + "..."@ + key.skip(key.len() - 4)
    }
}

/// The text shown for a field of the overlay.
pub fn text_input_display(value: &str, masked: bool, editing: bool) -> (r: String)
    ensures
        r@ == shown_value(value@, masked, editing),
{
    if editing {
        String::from_str(value)
    } else if masked && !value.is_empty() {
        TranslateOverlay::mask_api_key(value)
    } else if value.is_empty() {
        String::from_str("(not set)")
    } else {
        String::from_str(value)
    }
}

/// The text of an optional setting, empty when absent.
fn text_or_empty(o: &Option<String>) -> (r: String)
    ensures
        r@ == match *o {
            Some(t) => t@,
            None => Seq::<char>::empty(),
        },
{
    match o {
        Some(t) => t.clone(),
        None => String::new(),
    }
}

/// A setting that is absent when empty.
fn none_if_empty(t: &String) -> (r: Option<String>)
    ensures
        opt_chars(r) == if t@.len() == 0 {
            None
        } else {
            Some(t@)
        },
{
    if t.as_str().is_empty() {
        None
    } else {
        Some(t.clone())
    }
}

/// Removes the control characters of `s`.
fn strip_controls(s: &str) -> (r: Vec<char>)
    ensures
        r@ == without_controls(s@),
{
    let v = chars_of(s);
    let mut out: Vec<char> = Vec::new();
    let mut i: usize = 0;
    while i < v.len()
        invariant
            i <= v@.len(),
            out@ == without_controls(v@.take(i as int)),
        decreases v@.len() - i,
    {
        assert(v@.take(i + 1).drop_last() =~= v@.take(i as int));
        if !char_is_control(v[i]) {
            out.push(v[i]);
        }
        i = i + 1;
    }
    assert(v@.take(v@.len() as int) =~= v@);
    out
}

/// Translation settings overlay.
pub struct TranslateOverlay {
    enabled: bool,
    provider_id: ProviderId,
    provider_index: usize,
    /// API key, held in memory while editing.
    api_key: String,
    /// Model name override.
    model: String,
    /// Custom base URL.
    base_url: String,
    language: TargetLanguage,
    language_index: usize,
    selection: Selection,
    input_mode: InputMode,
    /// Cursor position in the edited field, in characters.
    cursor_position: usize,
    is_done: bool,
    status_message: Option<String>,
    modified: bool,
}

impl View for TranslateOverlay {
    type V = OverlayView;

    closed spec fn view(&self) -> OverlayView {
        OverlayView {
            enabled: self.enabled,
            provider_id: self.provider_id,
            provider_index: self.provider_index as int,
            api_key: self.api_key@,
            model: self.model@,
            base_url: self.base_url@,
            language: self.language,
            language_index: self.language_index as int,
            selection: self.selection,
            input_mode: self.input_mode,
            cursor: self.cursor_position as int,
            is_done: self.is_done,
            status_message: opt_chars(self.status_message),
            modified: self.modified,
        }
    }
}

impl TranslateOverlay {
    pub open spec fn wf(&self) -> bool {
        overlay_wf(self@)
    }

    /// A key shown as stars when it has at most eight characters, else as its
    /// first four and last four characters around `...`.
    pub fn mask_api_key(key: &str) -> (r: String)
        ensures
            r@ == masked_key(key@),
    {
        let v = chars_of(key);
        let n = v.len();
        if n <= 8 {
            let mut out: Vec<char> = Vec::new();
            let mut i: usize = 0;
            while i < n
                invariant
                    i <= n,
                    out@ == Seq::new(i as nat, |k: int| '*'),
                decreases n - i,
            {
                out.push('*');
                i = i + 1;
                assert(out@ =~= Seq::new(i as nat, |k: int| '*'));
            }
            string_from_chars(&out)
        } else {
            let first = string_from_range(&v, 0, 4);
            let last = string_from_range(&v, n - 4, n);
            assert(first@ =~= v@.take(4));
            assert(last@ =~= v@.skip(n - 4));
            let with_dots = concat(first.as_str(), "...");
            concat(with_dots.as_str(), last.as_str())
        }
    }

    /// An overlay showing `config`.
    pub fn new(config: &TranslationConfig) -> (r: Self)
        ensures
            r.wf(),
            r@.enabled == config.enabled,
            r@.provider_id == selected_provider(config.provider@),
            r@.language == match language_for_code(config.target_language@) {
                Some(l) => l,
                None => TargetLanguage::ChineseSimplified,
            },
            r@.api_key == match config.api_key {
                Some(k) => k@,
                None => Seq::<char>::empty(),
            },
            r@.model == match config.model {
                Some(m) => m@,
                None => Seq::<char>::empty(),
            },
            r@.base_url == match config.base_url {
                Some(u) => u@,
                None => Seq::<char>::empty(),
            },
            r@.selection == Selection::Enabled,
            r@.input_mode == InputMode::Normal,
            r@.cursor == 0,
            !r@.is_done,
            r@.status_message is None,
            !r@.modified,
    {
        let enabled = config.enabled;
        let provider_id = config.effective_provider();
        let provider_index = provider_id.index();
        let language = match TargetLanguage::from_code(config.target_language.as_str()) {
            Some(l) => l,
            None => TargetLanguage::ChineseSimplified,
        };
        let language_index = language.index();
        TranslateOverlay {
            enabled,
            provider_id,
            provider_index,
            api_key: text_or_empty(&config.api_key),
            model: text_or_empty(&config.model),
            base_url: text_or_empty(&config.base_url),
            language,
            language_index,
            selection: Selection::Enabled,
            input_mode: InputMode::Normal,
            cursor_position: 0,
            is_done: false,
            status_message: None,
            modified: false,
        }
    }

    /// The settings as configured in the overlay.
    pub fn config(&self) -> (r: TranslationConfig)
        ensures
            r.enabled == self@.enabled,
            r.target_language@ == language_code(self@.language)@,
            r.provider@ == provider_str(self@.provider_id)@,
            opt_chars(r.api_key) == if self@.api_key.len() == 0 { None } else { Some(self@.api_key) },
            opt_chars(r.model) == if self@.model.len() == 0 { None } else { Some(self@.model) },
            opt_chars(r.base_url) == if self@.base_url.len() == 0 { None } else { Some(self@.base_url) },
            r.timeout_ms is None,
    {
        TranslationConfig {
            enabled: self.enabled,
            target_language: String::from_str(self.language.code()),
            provider: String::from_str(self.provider_id.as_str()),
            api_key: none_if_empty(&self.api_key),
            model: none_if_empty(&self.model),
            base_url: none_if_empty(&self.base_url),
            timeout_ms: None,
        }
    }

    /// Whether the overlay should close.
    pub fn is_done(&self) -> (r: bool)
        ensures
            r == self@.is_done,
    {
        self.is_done
    }

    /// Whether the settings were changed.
    pub fn is_modified(&self) -> (r: bool)
        ensures
            r == self@.modified,
    {
        self.modified
    }

    /// Records the outcome of saving the settings: `None` on success, else the error text.
    pub fn set_save_result(&mut self, error: Option<String>)
        ensures
            final(self)@ == (OverlayView {
                status_message: Some(
                    match error {
                        Some(e) => "Failed to save: "@ + e@,
                        None => "Configuration saved"@,
                    },
                ),
                ..old(self)@
            }),
    {
        let message = match error {
            Some(e) => concat("Failed to save: ", e.as_str()),
            None => String::from_str("Configuration saved"),
        };
        self.status_message = Some(message);
    }

    /// Handles an event, and says what the host should do next.
    pub fn handle_event(&mut self, event: OverlayEvent) -> (r: OverlayResponse)
        requires
            old(self).wf(),
        ensures
            final(self).wf(),
            match event {
                OverlayEvent::Key(k) => {
                    &&& (final(self)@, r.save) == key_effect(old(self)@, k)
                    &&& r.schedule_frame
                    &&& !r.draw
                },
                OverlayEvent::Paste(t) => {
                    &&& final(self)@ == if old(self)@.input_mode == InputMode::Editing {
                        pasted(old(self)@, t@)
                    } else {
                        old(self)@
                    }
                    &&& !r.save
                    &&& r.schedule_frame == (old(self)@.input_mode == InputMode::Editing)
                    &&& !r.draw
                },
                OverlayEvent::Draw => {
                    &&& final(self)@ == old(self)@
                    &&& r == (OverlayResponse { save: false, schedule_frame: false, draw: true })
                },
            },
    {
        match event {
            OverlayEvent::Key(key_event) => {
                let save = self.handle_key_event(key_event);
                OverlayResponse { save, schedule_frame: true, draw: false }
            },
            OverlayEvent::Paste(text) => {
                if self.input_mode == InputMode::Editing {
                    self.handle_paste(text.as_str());
                    OverlayResponse { save: false, schedule_frame: true, draw: false }
                } else {
                    OverlayResponse { save: false, schedule_frame: false, draw: false }
                }
            },
            OverlayEvent::Draw => OverlayResponse { save: false, schedule_frame: false, draw: true },
        }
    }

    /// Handles a key event; returns whether the settings should be saved.
    fn handle_key_event(&mut self, key_event: KeyEvent) -> (save: bool)
        requires
            old(self).wf(),
        ensures
            final(self).wf(),
            (final(self)@, save) == key_effect(old(self)@, key_event),
    {
        if key_event.kind != KeyEventKind::Press && key_event.kind != KeyEventKind::Repeat {
            return false;
        }
        match self.input_mode {
            InputMode::Normal => self.handle_normal_mode(key_event),
            InputMode::Editing => {
                self.handle_editing_mode(key_event);
                false
            },
        }
    }

    fn handle_normal_mode(&mut self, key_event: KeyEvent) -> (save: bool)
        requires
            old(self).wf(),
            old(self)@.input_mode == InputMode::Normal,
        ensures
            final(self).wf(),
            (final(self)@, save) == normal_key(old(self)@, key_event.code),
    {
        match key_event.code {
            KeyCode::Esc | KeyCode::Char('q') => {
                // Close without saving; the user presses 's' to save.
                self.is_done = true;
            },
            KeyCode::Up | KeyCode::Char('k') => {
                self.selection = self.selection.prev();
            },
            KeyCode::Down | KeyCode::Char('j') => {
                self.selection = self.selection.next();
            },
            KeyCode::Left | KeyCode::Char('h') => {
                self.adjust_current(-1);
            },
            KeyCode::Right | KeyCode::Char('l') => {
                self.adjust_current(1);
            },
            KeyCode::Enter => {
                self.enter_edit_mode();
            },
            KeyCode::Char(' ') => {
                if self.selection == Selection::Enabled {
                    self.enabled = !self.enabled;
                    self.modified = true;
                } else {
                    self.enter_edit_mode();
                }
            },
            KeyCode::Char('s') | KeyCode::Char('S') => {
                return true;
            },
            _ => {},
        }
        false
    }

    fn handle_editing_mode(&mut self, key_event: KeyEvent)
        requires
            old(self).wf(),
            old(self)@.input_mode == InputMode::Editing,
        ensures
            final(self).wf(),
            final(self)@ == editing_key(old(self)@, key_event.code),
    {
        match key_event.code {
            KeyCode::Esc => {
                self.input_mode = InputMode::Normal;
            },
            KeyCode::Enter => {
                self.input_mode = InputMode::Normal;
                self.modified = true;
            },
            KeyCode::Char(c) => {
                self.insert_char(c);
            },
            KeyCode::Backspace => {
                self.delete_char_before_cursor();
            },
            KeyCode::Delete => {
                self.delete_char_at_cursor();
            },
            KeyCode::Left => {
                self.move_cursor_left();
            },
            KeyCode::Right => {
                self.move_cursor_right();
            },
            KeyCode::Home => {
                self.cursor_position = 0;
            },
            KeyCode::End => {
                let n = chars_of(self.current_text()).len();
                self.cursor_position = n;
            },
            _ => {},
        }
    }

    fn enter_edit_mode(&mut self)
        requires
            old(self).wf(),
        ensures
            final(self).wf(),
            final(self)@ == entered(old(self)@),
    {
        match self.selection {
            Selection::ApiKey | Selection::Model | Selection::BaseUrl => {
                self.input_mode = InputMode::Editing;
                let n = chars_of(self.current_text()).len();
                self.cursor_position = n;
            },
            Selection::Enabled => {
                self.enabled = !self.enabled;
                self.modified = true;
            },
            _ => {},
        }
    }

    /// The text of the selected field (empty for settings that are not text).
    pub fn current_text(&self) -> (r: &str)
        ensures
            r@ == current_text(self@),
    {
        match self.selection {
            Selection::ApiKey => self.api_key.as_str(),
            Selection::Model => self.model.as_str(),
            Selection::BaseUrl => self.base_url.as_str(),
            _ => {
                proof {
                    reveal_strlit("");
                }
                ""
            },
        }
    }

    /// Replaces the text of the selected field.
    fn set_current_text(&mut self, t: String)
        requires
            is_text_field(old(self)@.selection),
        ensures
            final(self)@ == with_current_text(old(self)@, t@),
    {
        match self.selection {
            Selection::ApiKey => self.api_key = t,
            Selection::Model => self.model = t,
            _ => self.base_url = t,
        }
    }

    fn insert_char(&mut self, c: char)
        requires
            old(self).wf(),
            old(self)@.input_mode == InputMode::Editing,
        ensures
            final(self).wf(),
            final(self)@ == inserted(old(self)@, c),
    {
        let pos = self.cursor_position;
        let mut text = chars_of(self.current_text());
        if pos <= text.len() {
            text.insert(pos, c);
            let n = text.len();
            assert(pos + 1 <= n);
            let t = string_from_chars(&text);
            self.set_current_text(t);
            self.cursor_position = pos + 1;
        }
    }

    fn handle_paste(&mut self, pasted_text: &str)
        requires
            old(self).wf(),
            old(self)@.input_mode == InputMode::Editing,
        ensures
            final(self).wf(),
            final(self)@ == pasted(old(self)@, pasted_text@),
    {
        // Line breaks and other control characters are dropped.
        let clean = strip_controls(pasted_text);
        if clean.len() == 0 {
            return;
        }
        let pos = self.cursor_position;
        let text = chars_of(self.current_text());
        if pos <= text.len() {
            let mut joined: Vec<char> = Vec::new();
            let mut i: usize = 0;
            while i < pos
                invariant
                    i <= pos <= text@.len(),
                    joined@ == text@.take(i as int),
                decreases pos - i,
            {
                joined.push(text[i]);
                assert(text@.take(i + 1) =~= text@.take(i as int).push(text@[i as int]));
                i = i + 1;
            }
            let mut j: usize = 0;
            while j < clean.len()
                invariant
                    pos <= text@.len(),
                    j <= clean@.len(),
                    joined@ == text@.take(pos as int) + clean@.take(j as int),
                decreases clean@.len() - j,
            {
                joined.push(clean[j]);
                assert(clean@.take(j + 1) =~= clean@.take(j as int).push(clean@[j as int]));
                j = j + 1;
            }
            assert(clean@.take(clean@.len() as int) =~= clean@);
            let mut k: usize = pos;
            while k < text.len()
                invariant
                    pos <= k <= text@.len(),
                    joined@ == text@.take(pos as int) + clean@ + text@.subrange(pos as int, k as int),
                decreases text@.len() - k,
            {
                joined.push(text[k]);
                assert(text@.subrange(pos as int, k + 1) =~= text@.subrange(pos as int, k as int).push(text@[k as int]));
                k = k + 1;
            }
            assert(text@.subrange(pos as int, text@.len() as int) =~= text@.skip(pos as int));
            assert(joined@.len() == text@.len() + clean@.len());
            let total = joined.len();
            assert(pos + clean@.len() <= total);
            let new_cursor = pos + clean.len();
            let t = string_from_chars(&joined);
            self.set_current_text(t);
            self.cursor_position = new_cursor;
            self.modified = true;
        }
    }

    fn delete_char_before_cursor(&mut self)
        requires
            old(self).wf(),
            old(self)@.input_mode == InputMode::Editing,
        ensures
            final(self).wf(),
            final(self)@ == deleted_before(old(self)@),
    {
        if self.cursor_position > 0 {
            let pos = self.cursor_position - 1;
            let mut text = chars_of(self.current_text());
            text.remove(pos);
            let t = string_from_chars(&text);
            self.set_current_text(t);
            self.cursor_position = pos;
        }
    }

    fn delete_char_at_cursor(&mut self)
        requires
            old(self).wf(),
            old(self)@.input_mode == InputMode::Editing,
        ensures
            final(self).wf(),
            final(self)@ == deleted_at(old(self)@),
    {
        let pos = self.cursor_position;
        let mut text = chars_of(self.current_text());
        if pos < text.len() {
            text.remove(pos);
            let t = string_from_chars(&text);
            self.set_current_text(t);
        }
    }

    fn move_cursor_left(&mut self)
        requires
            old(self).wf(),
        ensures
            final(self).wf(),
            final(self)@ == moved_left(old(self)@),
    {
        if self.cursor_position > 0 {
            self.cursor_position = self.cursor_position - 1;
        }
    }

    fn move_cursor_right(&mut self)
        requires
            old(self).wf(),
        ensures
            final(self).wf(),
            final(self)@ == moved_right(old(self)@),
    {
        let n = chars_of(self.current_text()).len();
        if self.cursor_position < n {
            self.cursor_position = self.cursor_position + 1;
        }
    }

    fn adjust_current(&mut self, delta: i32)
        requires
            old(self).wf(),
        ensures
            final(self).wf(),
            final(self)@ == adjusted(old(self)@, delta > 0),
    {
        match self.selection {
            Selection::Enabled => {
                self.enabled = !self.enabled;
                self.modified = true;
            },
            Selection::Provider => {
                let all = ProviderId::all();
                let len = all.len();
                self.provider_index = if delta > 0 {
                    (self.provider_index + 1) % len
                } else {
                    (self.provider_index + len - 1) % len
                };
                self.provider_id = all[self.provider_index];
                self.modified = true;
            },
            Selection::Language => {
                let all = TargetLanguage::all();
                let len = all.len();
                self.language_index = if delta > 0 {
                    (self.language_index + 1) % len
                } else {
                    (self.language_index + len - 1) % len
                };
                self.language = all[self.language_index];
                self.modified = true;
            },
            _ => {},
        }
    }

    /// Whether the selected provider's API key is configured.
    pub fn api_key_status(&self) -> (r: KeyStatus)
        ensures
            r == if !provider_def(self@.provider_id).requires_api_key {
                KeyStatus::NoKeyNeeded
            } else if self@.api_key.len() > 0 {
                KeyStatus::Configured
            } else {
                KeyStatus::Required
            },
    {
        let def = self.provider_id.definition();
        if !def.requires_api_key {
            KeyStatus::NoKeyNeeded
        } else if !self.api_key.as_str().is_empty() {
            KeyStatus::Configured
        } else {
            KeyStatus::Required
        }
    }

    pub fn enabled(&self) -> (r: bool)
        ensures
            r == self@.enabled,
    {
        self.enabled
    }

    pub fn provider_id(&self) -> (r: ProviderId)
        ensures
            r == self@.provider_id,
    {
        self.provider_id
    }

    pub fn api_key(&self) -> (r: &str)
        ensures
            r@ == self@.api_key,
    {
        self.api_key.as_str()
    }

    pub fn model(&self) -> (r: &str)
        ensures
            r@ == self@.model,
    {
        self.model.as_str()
    }

    pub fn base_url(&self) -> (r: &str)
        ensures
            r@ == self@.base_url,
    {
        self.base_url.as_str()
    }

    pub fn language(&self) -> (r: TargetLanguage)
        ensures
            r == self@.language,
    {
        self.language
    }

    pub fn selection(&self) -> (r: Selection)
        ensures
            r == self@.selection,
    {
        self.selection
    }

    pub fn input_mode(&self) -> (r: InputMode)
        ensures
            r == self@.input_mode,
    {
        self.input_mode
    }

    pub fn cursor_position(&self) -> (r: usize)
        ensures
            r == self@.cursor,
    {
        self.cursor_position
    }

    pub fn status_message(&self) -> (r: Option<&str>)
        ensures
            match r {
                Some(m) => self@.status_message == Some(m@),
                None => self@.status_message is None,
            },
    {
        match &self.status_message {
            Some(m) => Some(m.as_str()),
            None => None,
        }
    }
}

} // verus!
