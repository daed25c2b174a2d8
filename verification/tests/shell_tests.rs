use r_sqlite::bindings::{Command, KeyCode, KeyModifiers};
use r_sqlite::query::Column;
use r_sqlite::shell::{Screen, Shell, Work};

fn plain() -> KeyModifiers {
    KeyModifiers { shift: false, control: false, alt: false }
}

fn ctrl() -> KeyModifiers {
    KeyModifiers { shift: false, control: true, alt: false }
}

fn press(s: &mut Shell, code: KeyCode) -> bool {
    s.key(code, plain())
}

fn type_text(s: &mut Shell, text: &str) {
    for c in text.chars() {
        assert!(press(s, KeyCode::Char(c)));
    }
}

/// Walks the shell to a row grid over table `t` of `total` rows.
fn browsing_grid(total: i64) -> Shell {
    let mut s = Shell::new();
    type_text(&mut s, "/data");
    press(&mut s, KeyCode::Enter);
    match s.pending_work() {
        Some(Work::Scan(dir)) => assert_eq!(dir, "/data"),
        _ => panic!("expected a scan"),
    }
    s.scan_finished(Ok(vec!["/data/a.db".to_string()]));
    press(&mut s, KeyCode::Right);
    match s.pending_work() {
        Some(Work::OpenDatabase(p)) => assert_eq!(p, "/data/a.db"),
        _ => panic!("expected an open"),
    }
    s.database_opened("/data/a.db".to_string(), vec!["t".to_string(), "u".to_string()]);
    assert_eq!(s.screen(), Screen::TableList);
    press(&mut s, KeyCode::Right);
    match s.pending_work() {
        Some(Work::OpenTable(t)) => assert_eq!(t, "t"),
        _ => panic!("expected a table"),
    }
    s.table_opened(
        vec![Column { name: "id".to_string(), declared_type: "INTEGER".to_string() }],
        total,
    );
    while let Some(work) = s.pending_work() {
        match work {
            Work::LoadRows(q) => {
                let end = (q.offset + q.limit).min(total);
                s.rows_loaded((q.offset..end).map(|i| vec![i.to_string()]).collect());
            }
            _ => panic!("expected rows"),
        }
    }
    s
}

#[test]
fn starts_at_the_picker() {
    let s = Shell::new();
    assert_eq!(s.screen(), Screen::Picker);
    assert!(!s.should_quit());
    assert!(s.pending_work().is_none());
    assert_eq!(s.header_text(), "R-SQLite");
    assert_eq!(s.footer_text(), " type a directory | Backspace: delete | Enter: scan | Esc: exit ");
}

#[test]
fn typed_letters_do_not_quit() {
    let mut s = Shell::new();
    type_text(&mut s, "xq");
    assert!(!s.should_quit());
    assert_eq!(s.picker().input(), "xq");
    assert_eq!(s.map_command(KeyCode::Char('x'), plain()), Some(Command::Type('x')));
}

#[test]
fn ctrl_and_alt_keys_are_dropped() {
    let mut s = Shell::new();
    assert!(!s.key(KeyCode::Char('c'), ctrl()));
    assert!(!s.key(KeyCode::Esc, KeyModifiers { shift: false, control: false, alt: true }));
    assert!(!s.should_quit());
    assert_eq!(s.picker().input(), "");
}

#[test]
fn unmapped_keys_need_no_redraw() {
    let mut s = Shell::new();
    assert!(!press(&mut s, KeyCode::Up));
    assert!(press(&mut s, KeyCode::Backspace));
}

#[test]
fn esc_quits() {
    let mut s = Shell::new();
    assert!(press(&mut s, KeyCode::Esc));
    assert!(s.should_quit());
    let mut s = browsing_grid(10);
    press(&mut s, KeyCode::Esc);
    assert!(s.should_quit());
}

#[test]
fn browsing_flow_and_footers() {
    let mut s = browsing_grid(1000);
    assert_eq!(s.screen(), Screen::Grid);
    assert_eq!(s.header_text(), " r-sqlite  /data/a.db");
    press(&mut s, KeyCode::Down);
    assert_eq!(
        s.footer_text(),
        " table t | row 2/1000 | ↑/↓: scroll | PgUp/PgDn: 50 rows | Shift+←/→: sort column | Space: sort direction | ←: back | Esc: exit "
    );
    assert_eq!(s.grid().unwrap().cursor(), 1);
    press(&mut s, KeyCode::Left);
    assert_eq!(s.screen(), Screen::TableList);
    assert_eq!(
        s.footer_text(),
        " 2 object(s) | ↑/↓: scroll | →: open | ←: change database | Esc: exit "
    );
    press(&mut s, KeyCode::Left);
    assert_eq!(s.screen(), Screen::Picker);
    assert_eq!(s.header_text(), "R-SQLite");
}

#[test]
fn back_from_grid_keeps_the_list_position() {
    let mut s = browsing_grid(5);
    press(&mut s, KeyCode::Left);
    press(&mut s, KeyCode::Down);
    assert_eq!(s.list().selected(), 1);
    press(&mut s, KeyCode::Right);
    match s.pending_work() {
        Some(Work::OpenTable(t)) => assert_eq!(t, "u"),
        _ => panic!("expected a table"),
    }
    s.table_opened(Vec::new(), 0);
    assert!(s.pending_work().is_none());
    press(&mut s, KeyCode::Left);
    assert_eq!(s.list().selected(), 1);
}

#[test]
fn failed_open_reports_in_the_picker() {
    let mut s = Shell::new();
    type_text(&mut s, "/data");
    press(&mut s, KeyCode::Enter);
    s.scan_finished(Ok(vec!["/data/x".to_string()]));
    press(&mut s, KeyCode::Right);
    s.database_failed("/data/x", "the file is not a valid SQLite database");
    assert!(s.pending_work().is_none());
    assert_eq!(s.screen(), Screen::Picker);
    assert_eq!(
        s.picker().status().as_deref(),
        Some("Cannot open database /data/x: the file is not a valid SQLite database")
    );
}

#[test]
fn fitting_the_screens() {
    let mut s = browsing_grid(1000);
    s.fit_grid(13);
    assert_eq!(s.grid().unwrap().visible_range(), (0, 10));
    s.fit_picker_list(5);
    assert_eq!(s.picker().list_window(5).1, 1);
}
