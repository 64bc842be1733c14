//! The marks that the source view shows in its gutter.

use vstd::prelude::*;

verus! {

/// A kind of gutter mark.
#[derive(Clone, Copy, Debug, PartialEq, Eq)]
pub enum MarkCategory {
    /// A line at which the debugged program is to stop.
    Breakpoint,
    /// The line at which the debugged program stands.
    Execution,
}

/// How the source view draws the marks of one category.
#[derive(Clone, Copy, Debug, PartialEq, Eq)]
pub enum MarkLook {
    /// The themed icon of this name, drawn in the gutter.
    Icon(&'static str),
    /// The whole line, painted in the background colour that the buffer's
    /// style scheme gives to the style of this name.
    LineBackground(&'static str),
}

impl MarkCategory {
    /// The name under which the source buffer files marks of this category.
    pub open spec fn name_spec(self) -> Seq<char> {
        match self {
            MarkCategory::Breakpoint => "breakpoint"@,
            MarkCategory::Execution => "execution"@,
        }
    }

    /// The look of the marks of this category.
    pub open spec fn look_spec(self) -> MarkLook {
        match self {
            MarkCategory::Breakpoint => MarkLook::Icon("media-record"),
            MarkCategory::Execution => MarkLook::LineBackground("current-line"),
        }
    }

    /// The two categories have different names, so marks of one are never
    /// found or removed under the other.
    pub proof fn lemma_names_differ()
        ensures
            MarkCategory::Breakpoint.name_spec() != MarkCategory::Execution.name_spec(),
    {
        reveal_strlit("breakpoint");
        reveal_strlit("execution");
        assert("breakpoint"@[0] != "execution"@[0]);
    }

    pub fn name(self) -> (name: &'static str)
        ensures
            name@ == self.name_spec(),
    {
        match self {
            MarkCategory::Breakpoint => "breakpoint",
            MarkCategory::Execution => "execution",
        }
    }

    /// Where marks of several categories share a line, the one of the
    /// highest priority is drawn. Both categories rank alike.
    pub fn priority(self) -> (priority: i32)
        ensures
            priority == 1,
    {
        1
    }

    pub fn look(self) -> (look: MarkLook)
        ensures
            look == self.look_spec(),
    {
        match self {
            MarkCategory::Breakpoint => MarkLook::Icon("media-record"),
            MarkCategory::Execution => MarkLook::LineBackground("current-line"),
        }
    }
}

/// The name of the style scheme that the source buffer is given where the
/// toolkit has it installed.
pub open spec fn preferred_scheme_spec() -> Seq<char> {
    "oblivion"@
}

pub fn preferred_scheme() -> (scheme: &'static str)
    ensures
        scheme@ == preferred_scheme_spec(),
{
    "oblivion"
}

} // verus!
