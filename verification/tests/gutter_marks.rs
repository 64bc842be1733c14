use mend::marks::{preferred_scheme, MarkCategory, MarkLook};

#[test]
fn categories_are_named() {
    assert_eq!(MarkCategory::Breakpoint.name(), "breakpoint");
    assert_eq!(MarkCategory::Execution.name(), "execution");
}

#[test]
fn category_names_differ() {
    assert_ne!(MarkCategory::Breakpoint.name(), MarkCategory::Execution.name());
}

#[test]
fn categories_rank_alike() {
    assert_eq!(MarkCategory::Breakpoint.priority(), 1);
    assert_eq!(MarkCategory::Execution.priority(), 1);
}

#[test]
fn breakpoint_is_an_icon() {
    assert_eq!(MarkCategory::Breakpoint.look(), MarkLook::Icon("media-record"));
}

#[test]
fn execution_paints_the_line() {
    assert_eq!(MarkCategory::Execution.look(), MarkLook::LineBackground("current-line"));
}

#[test]
fn scheme_is_oblivion() {
    assert_eq!(preferred_scheme(), "oblivion");
}
