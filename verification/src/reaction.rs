//! From a signal to the commands that it gives rise to.

use crate::command::{Command, SearchOrigin};
use crate::marks::MarkCategory;
use crate::signal::{LoadedFile, SearchHit, Signal};
use vstd::prelude::*;

verus! {

/// The commands that the window carries out on a signal, in their order.
pub open spec fn reaction(signal: Signal) -> Seq<Command> {
    match signal {
        Signal::AboutClicked => seq![Command::ShowAbout],
        Signal::FileSet { file: Some(file) } => seq![
            Command::ClearMarks,
            Command::SetText { text: file.contents },
            Command::GuessLanguage { filename: file.filename },
        ],
        Signal::FileSet { file: None } => seq![],
        Signal::LanguageGuessed { language: Some(language) } => seq![
            Command::SetLanguage { language },
        ],
        Signal::LanguageGuessed { language: None } => seq![],
        Signal::LineMarkActivated { at, breakpoints } => if breakpoints == 0 {
            seq![Command::CreateMark { category: MarkCategory::Breakpoint, at }]
        } else {
            seq![Command::RemoveMarks { category: MarkCategory::Breakpoint, at }]
        },
        Signal::SearchToggled { active } => seq![Command::SetSearchMode { enabled: active }],
        Signal::SearchModeChanged { enabled } => seq![Command::SetSearchToggle { active: enabled }],
        Signal::SearchChanged { text: Some(text) } => seq![
            Command::Search { text, origin: SearchOrigin::Insert },
        ],
        Signal::SearchChanged { text: None } => seq![],
        Signal::NextMatch { text: Some(text) } => seq![
            Command::Search { text, origin: SearchOrigin::SelectionBound },
        ],
        Signal::NextMatch { text: None } => seq![],
        Signal::SearchFinished { found: Some(hit) } => seq![
            Command::Select { start: hit.start, end: hit.end },
        ],
        Signal::SearchFinished { found: None } => seq![],
        Signal::PreviousMatch => seq![],
        Signal::StopSearch => seq![],
    }
}

/// The commands that the window carries out on `signal`, in their order.
pub fn react(signal: Signal) -> (commands: Vec<Command>)
    ensures
        commands@ == reaction(signal),
{
    let mut commands: Vec<Command> = Vec::new();
    match signal {
        Signal::AboutClicked => {
            commands.push(Command::ShowAbout);
        },
        Signal::FileSet { file } => {
            if let Some(file) = file {
                let LoadedFile { filename, contents } = file;
                commands.push(Command::ClearMarks);
                commands.push(Command::SetText { text: contents });
                commands.push(Command::GuessLanguage { filename });
            }
        },
        Signal::LanguageGuessed { language } => {
            if let Some(language) = language {
                commands.push(Command::SetLanguage { language });
            }
        },
        Signal::LineMarkActivated { at, breakpoints } => {
            if breakpoints == 0 {
                commands.push(Command::CreateMark { category: MarkCategory::Breakpoint, at });
            } else {
                commands.push(Command::RemoveMarks { category: MarkCategory::Breakpoint, at });
            }
        },
        Signal::SearchToggled { active } => {
            commands.push(Command::SetSearchMode { enabled: active });
        },
        Signal::SearchModeChanged { enabled } => {
            commands.push(Command::SetSearchToggle { active: enabled });
        },
        Signal::SearchChanged { text } => {
            if let Some(text) = text {
                commands.push(Command::Search { text, origin: SearchOrigin::Insert });
            }
        },
        Signal::NextMatch { text } => {
            if let Some(text) = text {
                commands.push(Command::Search { text, origin: SearchOrigin::SelectionBound });
            }
        },
        Signal::SearchFinished { found } => {
            if let Some(hit) = found {
                let SearchHit { start, end, wrapped: _ } = hit;
                commands.push(Command::Select { start, end });
            }
        },
        Signal::PreviousMatch => {},
        Signal::StopSearch => {},
    }
    commands
}

/// No command that an answer gives rise to awaits an answer itself: a widget's
/// signal is dealt with after at most one question to the toolkit.
pub proof fn lemma_answers_settle(signal: Signal)
    requires
        signal.is_answer(),
    ensures
        forall|i: int|
            0 <= i < reaction(signal).len() ==> !(#[trigger] reaction(signal)[i]).awaits_answer(),
{
}

/// A signal gives rise to at most one command that awaits an answer, and
/// that command comes last: nothing is carried out while an answer is
/// outstanding.
pub proof fn lemma_question_comes_last(signal: Signal)
    ensures
        forall|i: int|
            0 <= i < reaction(signal).len() && (#[trigger] reaction(signal)[i]).awaits_answer()
                ==> i == reaction(signal).len() - 1,
{
}

} // verus!
