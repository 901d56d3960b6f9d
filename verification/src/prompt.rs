//! A static prompt: fixed left and right texts and fixed edit-mode
//! indicators.
//!
//! The line source asks the prompt for its pieces while rendering; the
//! answers here are pure functions of the prompt's fields and of the
//! rendering request, stated exactly. The rendering requests themselves
//! (edit mode, history search) are plain values of the library's own.

use vstd::prelude::*;
use vstd::string::StringExecFns;

verus! {

/// The indicator shown in the default and vi normal editing modes.
pub const DEFAULT_PROMPT_INDICATOR: &'static str = "\u{3009}";

/// The indicator shown in vi insert mode.
pub const DEFAULT_VI_INSERT_PROMPT_INDICATOR: &'static str = ": ";

/// The indicator shown in vi normal mode.
pub const DEFAULT_VI_NORMAL_PROMPT_INDICATOR: &'static str = "\u{3009}";

/// The indicator shown while editing a multi-line input.
pub const DEFAULT_MULTILINE_INDICATOR: &'static str = "::: ";

/// The editing mode the line source is in when it asks for the prompt
/// indicator.
pub enum PromptEditMode {
    /// The line source's default editing mode.
    Standard,
    /// Emacs-style editing.
    Emacs,
    /// Vi-style editing, in the given sub-mode.
    Vi(PromptViMode),
    /// A custom editing mode, by name.
    Custom(String),
}

/// The two vi editing sub-modes.
pub enum PromptViMode {
    Normal,
    Insert,
}

/// Whether the running history search currently matches.
pub enum PromptHistorySearchStatus {
    Passing,
    Failing,
}

/// A history-search rendering request: its status and the search term.
pub struct PromptHistorySearch {
    pub status: PromptHistorySearchStatus,
    pub term: String,
}

/// A prompt with fixed texts.
#[derive(Debug, Clone)]
pub struct StaticPrompt {
    /// The text to the left of the input area.
    pub left: String,
    /// The per-edit-mode indicator texts.
    pub indicators: StaticPromptIndicators,
    /// The text to the right of the input area.
    pub right: String,
}

/// The indicator texts of a [`StaticPrompt`], one per editing mode.
#[derive(Debug, Clone)]
pub struct StaticPromptIndicators {
    /// Shown in the default and emacs editing modes.
    pub default: String,
    /// Shown in vi insert mode.
    pub vi_insert: String,
    /// Shown in vi normal mode.
    pub vi_normal: String,
    /// Shown while editing a multi-line input.
    pub multiline: String,
}

impl Default for StaticPromptIndicators {
    /// The standard indicators: `"〉"` for the default and vi normal
    /// modes, `": "` for vi insert mode, `"::: "` for multi-line edits.
    fn default() -> (result: Self)
        ensures
            result.default@ == DEFAULT_PROMPT_INDICATOR@,
            result.vi_insert@ == DEFAULT_VI_INSERT_PROMPT_INDICATOR@,
            result.vi_normal@ == DEFAULT_VI_NORMAL_PROMPT_INDICATOR@,
            result.multiline@ == DEFAULT_MULTILINE_INDICATOR@,
    {
        StaticPromptIndicators {
            default: String::from_str(DEFAULT_PROMPT_INDICATOR),
            vi_insert: String::from_str(DEFAULT_VI_INSERT_PROMPT_INDICATOR),
            vi_normal: String::from_str(DEFAULT_VI_NORMAL_PROMPT_INDICATOR),
            multiline: String::from_str(DEFAULT_MULTILINE_INDICATOR),
        }
    }
}

impl Default for StaticPrompt {
    /// An empty prompt with the standard indicators.
    fn default() -> (result: Self)
        ensures
            result.left@ == ""@,
            result.right@ == ""@,
            result.indicators.default@ == DEFAULT_PROMPT_INDICATOR@,
            result.indicators.vi_insert@ == DEFAULT_VI_INSERT_PROMPT_INDICATOR@,
            result.indicators.vi_normal@ == DEFAULT_VI_NORMAL_PROMPT_INDICATOR@,
            result.indicators.multiline@ == DEFAULT_MULTILINE_INDICATOR@,
    {
        StaticPrompt {
            left: String::from_str(""),
            indicators: StaticPromptIndicators::default(),
            right: String::from_str(""),
        }
    }
}

/// What the indicator for a given edit mode is: the matching fixed
/// indicator text, or the custom mode's name in parentheses.
pub open spec fn spec_indicator(prompt: StaticPrompt, mode: PromptEditMode) -> Seq<char> {
    match mode {
        PromptEditMode::Standard => prompt.indicators.default@,
        PromptEditMode::Emacs => prompt.indicators.default@,
        PromptEditMode::Vi(PromptViMode::Normal) => prompt.indicators.vi_normal@,
        PromptEditMode::Vi(PromptViMode::Insert) => prompt.indicators.vi_insert@,
        PromptEditMode::Custom(name) => "("@ + name@ + ")"@,
    }
}

/// What the history-search indicator is: the search status ("failing " if
/// the search does not match, nothing if it does) and the term, framed as
/// a reverse-search note.
pub open spec fn spec_history_indicator(search: PromptHistorySearch) -> Seq<char> {
    match search.status {
        PromptHistorySearchStatus::Passing => "("@ + "reverse-search: "@ + search.term@ + ") "@,
        PromptHistorySearchStatus::Failing => "("@ + "failing "@ + "reverse-search: "@
            + search.term@ + ") "@,
    }
}

impl StaticPrompt {
    /// The text to the left of the input area.
    pub fn render_prompt_left(&self) -> (text: String)
        ensures
            text@ == self.left@,
    {
        self.left.clone()
    }

    /// The text to the right of the input area.
    pub fn render_prompt_right(&self) -> (text: String)
        ensures
            text@ == self.right@,
    {
        self.right.clone()
    }

    /// The indicator for the given edit mode, per [`spec_indicator`].
    pub fn render_prompt_indicator(&self, prompt_mode: PromptEditMode) -> (text: String)
        ensures
            text@ == spec_indicator(*self, prompt_mode),
    {
        match prompt_mode {
            PromptEditMode::Standard => self.indicators.default.clone(),
            PromptEditMode::Emacs => self.indicators.default.clone(),
            PromptEditMode::Vi(PromptViMode::Normal) => self.indicators.vi_normal.clone(),
            PromptEditMode::Vi(PromptViMode::Insert) => self.indicators.vi_insert.clone(),
            PromptEditMode::Custom(name) => String::from_str("(").concat(name.as_str()).concat(
                ")",
            ),
        }
    }

    /// The indicator shown while editing a multi-line input.
    pub fn render_prompt_multiline_indicator(&self) -> (text: String)
        ensures
            text@ == self.indicators.multiline@,
    {
        self.indicators.multiline.clone()
    }

    /// The indicator shown during a history search, per
    /// [`spec_history_indicator`].
    pub fn render_prompt_history_search_indicator(&self, history_search: PromptHistorySearch) -> (
        text: String)
        ensures
            text@ == spec_history_indicator(history_search),
    {
        match history_search.status {
            PromptHistorySearchStatus::Passing => String::from_str("(").concat(
                "reverse-search: ",
            ).concat(history_search.term.as_str()).concat(") "),
            PromptHistorySearchStatus::Failing => String::from_str("(").concat("failing ").concat(
                "reverse-search: ",
            ).concat(history_search.term.as_str()).concat(") "),
        }
    }
}

} // verus!
