//! What the window is told: the signals of its widgets, and the answers to
//! the commands that ask the toolkit for something.

use vstd::prelude::*;

verus! {

/// A file that the user chose, as read from disk.
#[derive(Clone, Debug, PartialEq, Eq)]
pub struct LoadedFile {
    pub filename: String,
    pub contents: String,
}

/// A stretch of the source buffer that matches the search text. `start` and
/// `end` are character offsets into the buffer; `wrapped` says that the
/// search passed the end of the buffer before it found the stretch.
#[derive(Clone, Copy, Debug, PartialEq, Eq)]
pub struct SearchHit {
    pub start: i32,
    pub end: i32,
    pub wrapped: bool,
}

#[derive(Clone, Debug, PartialEq, Eq)]
pub enum Signal {
    /// The button that opens the about dialog was clicked.
    AboutClicked,
    /// The file chooser's selection changed. `file` is `None` where the
    /// chooser names no file.
    FileSet { file: Option<LoadedFile> },
    /// The answer to `Command::GuessLanguage`: the id of the language that
    /// the toolkit guessed, if it guessed one.
    LanguageGuessed { language: Option<String> },
    /// The gutter was clicked beside the line that starts at offset `at`,
    /// where the buffer holds `breakpoints` marks of that category.
    LineMarkActivated { at: i32, breakpoints: usize },
    /// The search button in the header bar was toggled.
    SearchToggled { active: bool },
    /// The search bar was revealed or hidden.
    SearchModeChanged { enabled: bool },
    /// The text in the search entry changed. `text` is `None` where the
    /// entry has no text to give.
    SearchChanged { text: Option<String> },
    /// The user asked for the next match of the text in the search entry.
    NextMatch { text: Option<String> },
    /// The answer to `Command::Search`.
    SearchFinished { found: Option<SearchHit> },
    /// The user asked for the previous match.
    PreviousMatch,
    /// The user dismissed the search.
    StopSearch,
}

impl Signal {
    /// Whether the signal is the answer to a command rather than something
    /// that a widget reported of its own accord.
    pub open spec fn is_answer(self) -> bool {
        self is LanguageGuessed || self is SearchFinished
    }
}

} // verus!
