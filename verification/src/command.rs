//! What the window does: the commands that its signals give rise to.

use crate::marks::MarkCategory;
use vstd::prelude::*;

verus! {

/// The place in the source buffer at which a search starts. The buffer keeps
/// both places itself: they are the two ends of the selection.
#[derive(Clone, Copy, Debug, PartialEq, Eq)]
pub enum SearchOrigin {
    /// The cursor, where a selection begins.
    Insert,
    /// The other end of the selection.
    SelectionBound,
}

#[derive(Clone, Debug, PartialEq, Eq)]
pub enum Command {
    /// Show the about dialog over the window until the user closes it.
    ShowAbout,
    /// Remove the marks of every category from the whole source buffer.
    ClearMarks,
    /// Replace the text of the source buffer.
    SetText { text: String },
    /// Ask the toolkit which language a file of this name is written in. The
    /// answer comes back as `Signal::LanguageGuessed`.
    GuessLanguage { filename: String },
    /// Highlight the source buffer as the language of this id.
    SetLanguage { language: String },
    /// Put a mark of this category at offset `at` of the source buffer.
    CreateMark { category: MarkCategory, at: i32 },
    /// Remove the marks of this category that stand at offset `at`.
    RemoveMarks { category: MarkCategory, at: i32 },
    /// Reveal or hide the search bar.
    SetSearchMode { enabled: bool },
    /// Press or release the search button in the header bar.
    SetSearchToggle { active: bool },
    /// Search the source buffer forward for `text`, from `origin`. The answer
    /// comes back as `Signal::SearchFinished`.
    Search { text: String, origin: SearchOrigin },
    /// Select the stretch of the source buffer from offset `start` to offset
    /// `end`: the cursor goes to `start`, the other end of the selection to
    /// `end`.
    Select { start: i32, end: i32 },
}

impl Command {
    /// Whether the toolkit answers the command with a signal.
    pub open spec fn awaits_answer(self) -> bool {
        self is GuessLanguage || self is Search
    }
}

} // verus!
