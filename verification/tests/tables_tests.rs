use r_sqlite::action::Action;
use r_sqlite::bindings::Command;
use r_sqlite::tables::TableList;

fn list(names: &[&str]) -> TableList {
    TableList::new(names.iter().map(|s| s.to_string()).collect())
}

#[test]
fn new_list_highlights_the_first_table() {
    let l = list(&["a", "b"]);
    assert_eq!(l.len(), 2);
    assert_eq!(l.selected(), 0);
    assert_eq!(l.title(), " Tables ");
    assert_eq!(l.tables()[1], "b");
}

#[test]
fn empty_list() {
    let mut l = list(&[]);
    assert_eq!(l.len(), 0);
    assert_eq!(l.title(), " Tables (no tables or views) ");
    assert!(l.handle(Command::MoveDown).is_none());
    assert!(l.handle(Command::Open).is_none());
    assert_eq!(l.selected(), 0);
}

#[test]
fn open_opens_the_highlighted_table() {
    let mut l = list(&["a", "b", "c"]);
    l.handle(Command::MoveDown);
    l.handle(Command::MoveDown);
    l.handle(Command::MoveDown);
    assert_eq!(l.selected(), 2);
    match l.handle(Command::Open) {
        Some(Action::OpenTable(t)) => assert_eq!(t, "c"),
        other => panic!("unexpected {other:?}"),
    }
}

#[test]
fn list_down_then_up_returns() {
    let mut l = list(&["a", "b", "c"]);
    l.handle(Command::MoveDown);
    l.handle(Command::MoveUp);
    assert_eq!(l.selected(), 0);
    l.handle(Command::MoveUp);
    assert_eq!(l.selected(), 0);
}

#[test]
fn list_leaving_commands() {
    let mut l = list(&["a"]);
    assert!(matches!(l.handle(Command::Back), Some(Action::BackToPicker)));
    assert!(matches!(l.handle(Command::Quit), Some(Action::Quit)));
    for c in [
        Command::Type('x'),
        Command::EraseChar,
        Command::SortColumnLeft,
        Command::SortColumnRight,
        Command::OrderToggle,
        Command::PageUp,
        Command::PageDown,
    ] {
        assert!(l.handle(c).is_none());
    }
}
