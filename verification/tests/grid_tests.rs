use r_sqlite::bindings::Command;
use r_sqlite::grid::{Order, TableGrid, PAGE_JUMP, PAGE_MARGIN, PAGE_ROWS};
use r_sqlite::query::{Column, WindowQuery};
use r_sqlite::action::Action;

/// A fake table of `total` rows whose only cell is the row number.
fn rows_for(q: &WindowQuery, total: i64) -> Vec<Vec<String>> {
    let end = (q.offset + q.limit).min(total);
    (q.offset..end).map(|i| vec![i.to_string()]).collect()
}

fn settle(grid: &mut TableGrid, total: i64) -> Option<WindowQuery> {
    let q = grid.pending_load();
    if let Some(q) = &q {
        let rows = rows_for(q, total);
        grid.deliver(rows);
    }
    assert!(grid.pending_load().is_none());
    q
}

fn cols(names: &[&str]) -> Vec<Column> {
    names
        .iter()
        .map(|n| Column { name: n.to_string(), declared_type: String::new() })
        .collect()
}

fn open(total: i64) -> TableGrid {
    let mut g = TableGrid::new("t".to_string(), cols(&["id", "name"]), total);
    settle(&mut g, total);
    g
}

fn highlighted(g: &TableGrid) -> String {
    let (start, _) = g.visible_range();
    let i = g.selected_in_view().unwrap();
    g.rows()[start + i][0].clone()
}

#[test]
fn constants() {
    assert_eq!(PAGE_ROWS, 300);
    assert_eq!(PAGE_MARGIN, 150);
    assert_eq!(PAGE_JUMP, 50);
}

#[test]
fn order_markers() {
    assert_eq!(Order::Asc.marker(), " ^");
    assert_eq!(Order::Desc.marker(), " v");
}

#[test]
fn opening_loads_the_first_window() {
    let mut g = TableGrid::new("t".to_string(), cols(&["id"]), 1000);
    let q = g.pending_load().expect("first window");
    assert_eq!(q.table, "t");
    assert_eq!(q.offset, 0);
    assert_eq!(q.limit, 300);
    assert!(q.sort.is_none());
    g.deliver(rows_for(&q, 1000));
    assert_eq!(g.rows().len(), 300);
    assert_eq!(g.cursor(), 0);
    assert_eq!(g.total(), 1000);
    assert_eq!(g.name(), "t");
    assert_eq!(highlighted(&g), "0");
}

#[test]
fn empty_table_loads_nothing() {
    let mut g = TableGrid::new("e".to_string(), cols(&["id"]), 0);
    assert!(g.pending_load().is_none());
    assert!(g.handle(Command::MoveDown).is_none());
    assert_eq!(g.cursor(), 0);
    assert!(g.handle(Command::PageDown).is_none());
    assert_eq!(g.cursor(), 0);
    assert!(g.pending_load().is_none());
    assert_eq!(g.visible_range(), (0, 0));
}

#[test]
fn moving_inside_the_window_queries_nothing() {
    let mut g = open(1000);
    for _ in 0..299 {
        g.handle(Command::MoveDown);
        assert!(g.pending_load().is_none());
    }
    assert_eq!(g.cursor(), 299);
    assert_eq!(highlighted(&g), "299");
}

#[test]
fn leaving_the_window_loads_around_the_cursor() {
    let mut g = open(1000);
    for _ in 0..299 {
        g.handle(Command::MoveDown);
    }
    g.handle(Command::MoveDown);
    let q = settle(&mut g, 1000).expect("new window");
    assert_eq!(q.offset, 300 - 150);
    assert_eq!(g.cursor(), 300);
    assert_eq!(highlighted(&g), "300");
    // the highlight is on the last row of a 20-row view
    let (start, end) = g.visible_range();
    assert_eq!(end - start, 20);
    assert_eq!(g.selected_in_view(), Some(19));
}

#[test]
fn cursor_stays_inside_the_table() {
    let mut g = open(3);
    g.handle(Command::MoveUp);
    assert_eq!(g.cursor(), 0);
    g.handle(Command::MoveDown);
    g.handle(Command::MoveDown);
    g.handle(Command::MoveDown);
    assert_eq!(g.cursor(), 2);
    g.handle(Command::PageUp);
    assert_eq!(g.cursor(), 0);
    g.handle(Command::PageDown);
    assert_eq!(g.cursor(), 2);
}

#[test]
fn page_down_pins_bottom_and_page_up_pins_top() {
    let mut g = open(1000);
    g.handle(Command::PageDown);
    settle(&mut g, 1000);
    assert_eq!(g.cursor(), 50);
    // 50 rows down with a 20-row view: the highlight is on the bottom row
    assert_eq!(g.selected_in_view(), Some(19));
    g.handle(Command::PageUp);
    settle(&mut g, 1000);
    assert_eq!(g.cursor(), 0);
    assert_eq!(g.selected_in_view(), Some(0));
}

#[test]
fn page_down_then_up_returns() {
    let mut g = open(10_000);
    for _ in 0..7 {
        g.handle(Command::PageDown);
        settle(&mut g, 10_000);
    }
    assert_eq!(g.cursor(), 350);
    assert_eq!(highlighted(&g), "350");
    g.handle(Command::PageDown);
    settle(&mut g, 10_000);
    g.handle(Command::PageUp);
    settle(&mut g, 10_000);
    assert_eq!(g.cursor(), 350);
    assert_eq!(highlighted(&g), "350");
}

#[test]
fn grid_down_then_up_returns() {
    let mut g = open(1000);
    for _ in 0..299 {
        g.handle(Command::MoveDown);
    }
    g.handle(Command::MoveDown);
    settle(&mut g, 1000);
    g.handle(Command::MoveUp);
    settle(&mut g, 1000);
    assert_eq!(g.cursor(), 299);
    assert_eq!(highlighted(&g), "299");
}

#[test]
fn toggling_the_order_sorts_from_the_top() {
    let mut g = open(1000);
    g.handle(Command::PageDown);
    settle(&mut g, 1000);
    g.handle(Command::OrderToggle);
    let q = g.pending_load().expect("sorted window");
    assert_eq!(q.offset, 0);
    let k = q.sort.clone().unwrap();
    assert_eq!(k.column, "id");
    assert!(k.ascending);
    settle(&mut g, 1000);
    assert_eq!(g.cursor(), 0);
    assert_eq!(g.header_labels(), vec!["id ^".to_string(), "name".to_string()]);
    g.handle(Command::OrderToggle);
    let q = settle(&mut g, 1000).unwrap();
    assert!(!q.sort.unwrap().ascending);
    assert_eq!(g.header_labels(), vec!["id v".to_string(), "name".to_string()]);
}

#[test]
fn moving_the_sort_column() {
    let mut g = open(1000);
    // without a sort, the column moves and nothing reloads
    g.handle(Command::SortColumnRight);
    assert!(g.pending_load().is_none());
    assert!(g.is_sort_column(1));
    assert_eq!(g.header_labels(), vec!["id".to_string(), "name".to_string()]);
    g.handle(Command::SortColumnRight);
    assert!(g.is_sort_column(1));
    g.handle(Command::OrderToggle);
    let q = settle(&mut g, 1000).unwrap();
    assert_eq!(q.sort.unwrap().column, "name");
    g.handle(Command::SortColumnLeft);
    let q = settle(&mut g, 1000).unwrap();
    assert_eq!(q.sort.unwrap().column, "id");
    g.handle(Command::SortColumnLeft);
    assert!(g.is_sort_column(0));
}

#[test]
fn no_sort_without_columns() {
    let mut g = TableGrid::new("t".to_string(), Vec::new(), 5);
    settle(&mut g, 5);
    g.handle(Command::OrderToggle);
    assert!(g.pending_load().is_none());
    g.handle(Command::SortColumnRight);
    assert!(g.pending_load().is_none());
    assert!(g.header_labels().is_empty());
    assert_eq!(g.column_count(), 0);
}

#[test]
fn grid_leaving_commands() {
    let mut g = open(10);
    assert!(matches!(g.handle(Command::Back), Some(Action::BackToList)));
    assert!(matches!(g.handle(Command::Quit), Some(Action::Quit)));
    assert!(g.handle(Command::Open).is_none());
    assert!(g.handle(Command::Type('a')).is_none());
    assert!(g.handle(Command::EraseChar).is_none());
}

#[test]
fn title_counts_rows() {
    let g = open(1000);
    assert_eq!(g.title(), " t — 1000 rows ");
}

#[test]
fn viewport_follows_area_height() {
    let mut g = open(1000);
    g.set_area_height(13);
    assert_eq!(g.visible_range(), (0, 10));
    g.set_area_height(2);
    // at least one row is shown
    assert_eq!(g.visible_range(), (0, 1));
    for _ in 0..5 {
        g.handle(Command::MoveDown);
    }
    assert_eq!(g.selected_in_view(), Some(0));
    assert_eq!(highlighted(&g), "5");
}

#[test]
fn short_window_keeps_cursor() {
    // the data source returns fewer rows than asked: the cursor stays put
    let mut g = TableGrid::new("t".to_string(), cols(&["id"]), 1000);
    g.deliver(Vec::new());
    assert_eq!(g.cursor(), 0);
    assert!(g.rows().is_empty());
    g.handle(Command::MoveDown);
    assert_eq!(g.cursor(), 1);
    assert!(g.pending_load().is_some());
}

#[test]
fn delivery_without_a_request_is_dropped() {
    let mut g = open(10);
    let before = g.rows().clone();
    g.deliver(vec![vec!["x".to_string()]]);
    assert_eq!(g.rows(), &before);
}

#[test]
fn grid_up_then_down_returns() {
    let mut g = open(1000);
    for _ in 0..10 {
        g.handle(Command::PageDown);
        settle(&mut g, 1000);
    }
    assert_eq!(g.cursor(), 500);
    g.handle(Command::MoveUp);
    settle(&mut g, 1000);
    g.handle(Command::MoveDown);
    settle(&mut g, 1000);
    assert_eq!(g.cursor(), 500);
    assert_eq!(highlighted(&g), "500");
}

#[test]
fn long_walk_keeps_the_highlight_on_the_cursor_row() {
    let total = 1234;
    let mut g = open(total);
    let commands = [
        Command::MoveUp,
        Command::MoveDown,
        Command::MoveDown,
        Command::PageUp,
        Command::PageDown,
        Command::PageDown,
        Command::SortColumnLeft,
        Command::SortColumnRight,
        Command::OrderToggle,
    ];
    let mut seed: u64 = 12345;
    for step in 0..3000 {
        seed = seed.wrapping_mul(6364136223846793005).wrapping_add(1442695040888963407);
        let c = commands[((seed >> 33) % commands.len() as u64) as usize];
        if step % 500 == 0 {
            g.set_area_height(3 + (step / 500) as u16 * 7);
        }
        g.handle(c);
        settle(&mut g, total);
        assert!(g.cursor() >= 0 && g.cursor() < total);
        assert_eq!(highlighted(&g), g.cursor().to_string(), "step {step}");
        assert!(g.rows().len() <= 300);
    }
}

#[test]
fn header_shows_names_and_types() {
    let columns = vec![
        Column { name: "id".to_string(), declared_type: "INTEGER".to_string() },
        Column { name: "note".to_string(), declared_type: "TEXT".to_string() },
        Column { name: "any".to_string(), declared_type: String::new() },
    ];
    let mut g = TableGrid::new("t".to_string(), columns, 10);
    settle(&mut g, 10);
    assert_eq!(g.header_labels(), vec!["id INTEGER", "note TEXT", "any"]);
    g.handle(Command::SortColumnRight);
    g.handle(Command::OrderToggle);
    settle(&mut g, 10);
    assert_eq!(g.header_labels(), vec!["id INTEGER", "note TEXT ^", "any"]);
}

#[test]
fn full_windows_keep_the_cursor_loaded() {
    let total = 777;
    let mut g = open(total);
    for _ in 0..40 {
        g.handle(Command::PageDown);
        settle(&mut g, total);
        assert!(!g.rows().is_empty());
        assert_eq!(highlighted(&g), g.cursor().to_string());
    }
    assert_eq!(g.cursor(), 776);
    assert_eq!(g.name(), "t");
    assert_eq!(g.total(), total);
}
