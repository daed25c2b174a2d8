//! The row grid for one opened table.
//!
//! The grid never holds the whole table: it keeps a window of at most
//! `PAGE_ROWS` rows around the highlighted row. When the highlight leaves the
//! loaded window the grid asks for a new one (`pending_load`), and the caller
//! hands the rows back with `deliver`; and the move completes.
use vstd::prelude::*;
use vstd::string::*;

use crate::action::Action;
use crate::bindings::Command;
use crate::query::{Column, SortKey, WindowQuery};
use crate::text::{push_signed, signed_decimal};

verus! {

/// How many rows the grid buffers around the cursor at once.
pub const PAGE_ROWS: i64 = 300;

/// Number of rows to keep loaded above the cursor as a scroll margin (half
/// of `PAGE_ROWS`).
pub const PAGE_MARGIN: i64 = 150;

/// How many rows one page key jumps at a time.
pub const PAGE_JUMP: i64 = 50;

/// Direction of the current sort.
#[derive(Debug, Clone, Copy, PartialEq, Eq, Structural)]
pub enum Order {
    /// Smallest values first (oldest first for a time column).
    Asc,
    /// Largest values first (newest first for a time column).
    Desc,
}

impl Order {
    /// The marker shown after the name of the sort column.
    pub fn marker(self) -> (m: &'static str)
        ensures
            m@ == marker_spec(self),
    {
        match self {
            Order::Asc => " ^",
            Order::Desc => " v",
        }
    }
}

pub open spec fn marker_spec(o: Order) -> Seq<char> {
    match o {
        Order::Asc => " ^"@,
        Order::Desc => " v"@,
    }
}

/// What completes a move once the new window of rows has arrived.
#[derive(Debug, Clone, Copy, PartialEq, Eq, Structural)]
pub enum AfterLoad {
    /// Scroll only as far as needed to keep the highlight in view.
    KeepVisible,
    /// Show the highlight on the top row of the view.
    PinTop,
    /// Show the highlight on the bottom row of the view.
    PinBottom,
    /// Nothing more.
    Stay,
}

/// A window load the grid waits for: where it starts, and what follows.
#[derive(Debug, Clone, Copy, PartialEq, Eq, Structural)]
pub struct PendingLoad {
    pub start: i64,
    pub after: AfterLoad,
}

/// The mathematical model of a grid.
pub struct GridState {
    /// Name of the table being viewed.
    pub table: Seq<char>,
    /// Names of its columns, shown in the header row.
    pub columns: Seq<Seq<char>>,
    /// Declared types of its columns, shown after the names.
    pub column_types: Seq<Seq<char>>,
    /// Total number of rows in the table.
    pub total: int,
    /// Absolute index of the highlighted row across the whole table.
    pub cursor: int,
    /// Absolute index of the first row currently loaded.
    pub window_start: int,
    /// The loaded window of rows (text cells).
    pub rows: Seq<Seq<Seq<char>>>,
    /// Index within `rows` of the first visible row.
    pub scroll_top: int,
    /// Rows that fit in the data area.
    pub viewport_rows: int,
    /// Index of the column chosen as the sort key.
    pub sort_col: int,
    /// The active sort direction, if sorting is on.
    pub order: Option<Order>,
    /// The window load the grid waits for, if any.
    pub pending: Option<PendingLoad>,
}

// ---------------------------------------------------------------------------
// Specification of the grid's behaviour
// ---------------------------------------------------------------------------

pub open spec fn min(a: int, b: int) -> int {
    if a <= b {
        a
    } else {
        b
    }
}

pub open spec fn max(a: int, b: int) -> int {
    if a >= b {
        a
    } else {
        b
    }
}

pub open spec fn clamp(x: int, lo: int, hi: int) -> int {
    if x < lo {
        lo
    } else if x > hi {
        hi
    } else {
        x
    }
}

/// `a - b`, or 0 when that is negative.
pub open spec fn sat_sub(a: int, b: int) -> int {
    if a >= b {
        a - b
    } else {
        0
    }
}

/// Index of the last row of a table of `total` rows (0 for an empty table).
pub open spec fn last_row(total: int) -> int {
    if total <= 0 {
        0
    } else {
        total - 1
    }
}

/// First row of the window loaded around `cursor`: `PAGE_MARGIN` rows above
/// it, within the table.
pub open spec fn window_start_for(cursor: int, total: int) -> int {
    clamp(cursor - PAGE_MARGIN, 0, last_row(total))
}

/// The loaded window contains the highlighted row.
pub open spec fn holds_cursor(g: GridState) -> bool {
    g.rows.len() > 0 && g.window_start <= g.cursor < g.window_start + g.rows.len()
}

/// Rows that one view shows (at least one).
pub open spec fn view_height(g: GridState) -> int {
    max(g.viewport_rows, 1)
}

/// Index of the highlight within the loaded rows, clamped to them.
pub open spec fn local_row(g: GridState) -> int {
    min(max(g.cursor - g.window_start, 0), sat_sub(g.rows.len() as int, 1))
}

/// Scroll only as far as needed to bring the highlight into view.
pub open spec fn keep_visible(g: GridState) -> GridState {
    let local = g.cursor - g.window_start;
    if local < g.scroll_top {
        GridState { scroll_top: local, ..g }
    } else if local >= g.scroll_top + view_height(g) {
        GridState { scroll_top: local + 1 - view_height(g), ..g }
    } else {
        g
    }
}

/// Show the highlight on the top row of the view.
pub open spec fn pin_top(g: GridState) -> GridState {
    GridState { scroll_top: min(local_row(g), sat_sub(g.rows.len() as int, 1)), ..g }
}

/// Show the highlight on the bottom row of the view.
pub open spec fn pin_bottom(g: GridState) -> GridState {
    GridState {
        scroll_top: min(
            sat_sub(local_row(g) + 1, view_height(g)),
            sat_sub(g.rows.len() as int, 1),
        ),
        ..g
    }
}

pub open spec fn finish(g: GridState, after: AfterLoad) -> GridState {
    match after {
        AfterLoad::KeepVisible => keep_visible(g),
        AfterLoad::PinTop => pin_top(g),
        AfterLoad::PinBottom => pin_bottom(g),
        AfterLoad::Stay => g,
    }
}

/// Keep the loaded window when it holds the highlight (or the table is
/// empty), else ask for the window around the highlight.
pub open spec fn reload(g: GridState, after: AfterLoad) -> GridState {
    if g.total == 0 || holds_cursor(g) {
        finish(g, after)
    } else {
        GridState {
            pending: Some(PendingLoad { start: window_start_for(g.cursor, g.total) as i64, after }),
            ..g
        }
    }
}

/// The state once the rows of the pending window have arrived.
pub open spec fn deliver_spec(g: GridState, rows: Seq<Seq<Seq<char>>>) -> GridState {
    match g.pending {
        None => g,
        Some(p) => finish(
            GridState {
                rows: rows,
                window_start: p.start as int,
                scroll_top: 0,
                pending: None,
                ..g
            },
            p.after,
        ),
    }
}

/// Move the highlight by `delta` rows within the table.
pub open spec fn move_rows(g: GridState, delta: int) -> GridState {
    let next = clamp(g.cursor + delta, 0, last_row(g.total));
    if next == g.cursor {
        g
    } else {
        reload(GridState { cursor: next, ..g }, AfterLoad::KeepVisible)
    }
}

/// Jump `PAGE_JUMP` rows up and pin the highlight to the top of the view.
pub open spec fn page_up(g: GridState) -> GridState {
    if g.total <= 0 {
        g
    } else {
        reload(GridState { cursor: max(g.cursor - PAGE_JUMP, 0), ..g }, AfterLoad::PinTop)
    }
}

/// Jump `PAGE_JUMP` rows down and pin the highlight to the bottom of the view.
pub open spec fn page_down(g: GridState) -> GridState {
    if g.total <= 0 {
        g
    } else {
        reload(
            GridState { cursor: min(g.cursor + PAGE_JUMP, g.total - 1), ..g },
            AfterLoad::PinBottom,
        )
    }
}

/// Drop the loaded window and go back to the first row.
pub open spec fn reset_to_top(g: GridState) -> GridState {
    reload(
        GridState { cursor: 0, window_start: 0, scroll_top: 0, rows: seq![], ..g },
        AfterLoad::Stay,
    )
}

/// Move the sort column; re-sort from the top when sorting is on.
pub open spec fn move_sort_col(g: GridState, delta: int) -> GridState {
    if g.columns.len() == 0 {
        g
    } else {
        let moved = GridState {
            sort_col: clamp(g.sort_col + delta, 0, g.columns.len() - 1),
            ..g
        };
        if g.order is Some {
            reset_to_top(moved)
        } else {
            moved
        }
    }
}

/// The direction that a toggle switches to: ascending first, and back and
/// forth.
pub open spec fn toggled(o: Option<Order>) -> Order {
    match o {
        Some(Order::Asc) => Order::Desc,
        _ => Order::Asc,
    }
}

/// Sort by the chosen column in `d` and show the sorted top.
pub open spec fn set_order(g: GridState, d: Order) -> GridState {
    if g.columns.len() == 0 {
        g
    } else {
        reset_to_top(GridState { order: Some(d), ..g })
    }
}

/// The state after one command.
pub open spec fn grid_step(g: GridState, command: Command) -> GridState {
    match command {
        Command::MoveUp => move_rows(g, -1),
        Command::MoveDown => move_rows(g, 1),
        Command::SortColumnLeft => move_sort_col(g, -1),
        Command::SortColumnRight => move_sort_col(g, 1),
        Command::OrderToggle => set_order(g, toggled(g.order)),
        Command::PageUp => page_up(g),
        Command::PageDown => page_down(g),
        _ => g,
    }
}

/// The action that a command asks of the shell.
pub open spec fn grid_reply(command: Command) -> Option<Action> {
    match command {
        Command::Back => Some(Action::BackToList),
        Command::Quit => Some(Action::Quit),
        _ => None,
    }
}

/// The state of a freshly opened table, before its first window loads.
pub open spec fn opened(
    table: Seq<char>,
    columns: Seq<Seq<char>>,
    column_types: Seq<Seq<char>>,
    total: int,
) -> GridState {
    GridState {
        table,
        columns,
        column_types,
        total,
        cursor: 0,
        window_start: 0,
        rows: seq![],
        scroll_top: 0,
        viewport_rows: 20,
        sort_col: 0,
        order: None,
        pending: None,
    }
}

/// The invariant of a grid.
pub open spec fn grid_inv(g: GridState) -> bool {
    &&& g.total <= i64::MAX
    &&& g.rows.len() <= PAGE_ROWS
    &&& 0 <= g.cursor <= last_row(g.total)
    &&& 0 <= g.window_start <= last_row(g.total)
    &&& 0 <= g.scroll_top
    &&& 0 <= g.viewport_rows
    &&& 0 <= g.sort_col
    &&& (g.columns.len() == 0 ==> g.sort_col == 0)
    &&& (g.columns.len() > 0 ==> g.sort_col < g.columns.len())
    &&& match g.pending {
        None => {
            &&& g.window_start <= g.cursor
            &&& (g.cursor - g.window_start <= PAGE_MARGIN || g.cursor - g.window_start
                < g.rows.len())
        },
        Some(p) => {
            &&& 0 <= p.start <= g.cursor
            &&& g.cursor - p.start <= PAGE_MARGIN
            &&& p.start <= last_row(g.total)
        },
    }
}

/// The rows a view shows: `[start, end)` of the loaded window.
pub open spec fn visible_range_spec(g: GridState) -> (int, int) {
    let start = min(g.scroll_top, g.rows.len() as int);
    (start, min(start + view_height(g), g.rows.len() as int))
}

/// The highlighted row within the view, if it is not above it.
pub open spec fn selected_in_view_spec(g: GridState) -> Option<int> {
    let local = g.cursor - g.window_start;
    let start = visible_range_spec(g).0;
    if local >= start {
        Some(local - start)
    } else {
        None
    }
}

/// A column's name and declared type, as the header shows them: the name,
/// then a space and the type when there is one.
pub open spec fn column_heading(name: Seq<char>, declared_type: Seq<char>) -> Seq<char> {
    if declared_type.len() == 0 {
        name
    } else {
        name + " "@ + declared_type
    }
}

/// The header text of column `i`: its name and type, followed by the sort
/// marker on the sort column when sorting is on.
pub open spec fn header_label(g: GridState, i: int) -> Seq<char> {
    let heading = column_heading(g.columns[i], g.column_types[i]);
    if i == g.sort_col && g.order is Some {
        heading + marker_spec(g.order->0)
    } else {
        heading
    }
}

/// The name of the sort column (empty when there is none).
pub open spec fn sort_column_name(g: GridState) -> Seq<char> {
    if 0 <= g.sort_col < g.columns.len() {
        g.columns[g.sort_col]
    } else {
        seq![]
    }
}

/// The query that fetches a pending window.
pub open spec fn load_query_spec(g: GridState, q: WindowQuery) -> bool {
    &&& g.pending is Some
    &&& q.table@ == g.table
    &&& q.offset == g.pending->0.start
    &&& q.limit == PAGE_ROWS
    &&& match g.order {
        None => q.sort is None,
        Some(o) => {
            &&& q.sort is Some
            &&& q.sort->0.column@ == sort_column_name(g)
            &&& q.sort->0.ascending == (o == Order::Asc)
        },
    }
}

/// The title of the grid: table name and row count.
pub open spec fn title_spec(g: GridState) -> Seq<char> {
    " "@ + g.table + " — "@ + signed_decimal(g.total) + " rows "@
}

// ---------------------------------------------------------------------------
// Laws
// ---------------------------------------------------------------------------

/// Every command keeps the grid's invariant: the highlight stays on a row of
/// the table, and the loaded window, or the one asked for, lies around it.
pub proof fn law_step_keeps_invariant(g: GridState, command: Command)
    requires
        grid_inv(g),
        g.pending is None,
    ensures
        grid_inv(grid_step(g, command)),
{
}

/// Handing over the rows of a pending window keeps the invariant, whatever
/// rows (at most one window of them) arrive: the grid never holds more than
/// `PAGE_ROWS` rows.
pub proof fn law_deliver_keeps_invariant(g: GridState, rows: Seq<Seq<Seq<char>>>)
    requires
        grid_inv(g),
        rows.len() <= PAGE_ROWS,
    ensures
        grid_inv(deliver_spec(g, rows)),
        deliver_spec(g, rows).pending is None,
{
}

/// No command and no delivery changes which table the grid shows, its row
/// count or its columns.
pub proof fn law_table_stays(g: GridState, command: Command, rows: Seq<Seq<Seq<char>>>)
    ensures
        grid_step(g, command).table == g.table,
        grid_step(g, command).total == g.total,
        grid_step(g, command).columns == g.columns,
        grid_step(g, command).column_types == g.column_types,
        deliver_spec(g, rows).table == g.table,
        deliver_spec(g, rows).total == g.total,
        deliver_spec(g, rows).columns == g.columns,
        deliver_spec(g, rows).column_types == g.column_types,
{
}

/// When no window is awaited, a non-empty loaded window holds the highlight.
pub open spec fn window_holds_cursor(g: GridState) -> bool {
    g.pending is None && g.rows.len() > 0 ==> g.cursor < g.window_start + g.rows.len()
}

/// The rows a database gives for the awaited window: a full window, or all
/// the rows from its start to the end of the table.
pub open spec fn full_window(g: GridState, rows: Seq<Seq<Seq<char>>>) -> bool {
    g.pending matches Some(p) && rows.len() == min(PAGE_ROWS as int, g.total - p.start)
}

/// A freshly opened grid holds no rows, so nothing lies outside them.
pub proof fn law_opened_holds_cursor(
    table: Seq<char>,
    columns: Seq<Seq<char>>,
    column_types: Seq<Seq<char>>,
    total: int,
)
    requires
        total <= i64::MAX,
    ensures
        grid_inv(reload(opened(table, columns, column_types, total), AfterLoad::Stay)),
        window_holds_cursor(reload(opened(table, columns, column_types, total), AfterLoad::Stay)),
{
}

/// A command leaves the highlight inside the loaded rows, or asks for the
/// window around it.
pub proof fn law_step_keeps_cursor_in_window(g: GridState, command: Command)
    requires
        grid_inv(g),
        g.pending is None,
        window_holds_cursor(g),
    ensures
        window_holds_cursor(grid_step(g, command)),
{
}

/// When the database gives the full awaited window, the highlight lies
/// inside the loaded rows. With the previous two laws: as long as every
/// window arrives whole, the highlight is always on a loaded row.
pub proof fn law_full_window_holds_cursor(g: GridState, rows: Seq<Seq<Seq<char>>>)
    requires
        grid_inv(g),
        g.total > 0,
        full_window(g, rows),
    ensures
        window_holds_cursor(deliver_spec(g, rows)),
        holds_cursor(deliver_spec(g, rows)),
{
}

/// A window asked for starts at most `PAGE_MARGIN` rows above the highlight,
/// so a full window of `PAGE_ROWS` rows holds it.
pub proof fn law_window_covers_cursor(g: GridState, command: Command)
    requires
        grid_inv(g),
        g.pending is None,
        grid_step(g, command).pending is Some,
    ensures
        ({
            let h = grid_step(g, command);
            let start = h.pending->0.start as int;
            &&& start == window_start_for(h.cursor, h.total)
            &&& start <= h.cursor < start + PAGE_ROWS
        }),
{
}

/// Moving within the loaded rows asks for nothing: a window is only fetched
/// when the highlight leaves it.
pub proof fn law_no_load_inside_window(g: GridState, command: Command)
    requires
        grid_inv(g),
        g.pending is None,
        command == Command::MoveUp || command == Command::MoveDown || command == Command::PageUp
            || command == Command::PageDown,
        holds_cursor(GridState { cursor: grid_step(g, command).cursor, ..g }),
    ensures
        grid_step(g, command).pending is None,
        grid_step(g, command).window_start == g.window_start,
        grid_step(g, command).rows == g.rows,
{
}

/// Moving down one row and back up returns the highlight to where it was,
/// whatever rows the loads bring.
pub proof fn law_down_then_up(g: GridState, rows1: Seq<Seq<Seq<char>>>, rows2: Seq<Seq<Seq<char>>>)
    requires
        grid_inv(g),
        g.pending is None,
        g.cursor < last_row(g.total),
    ensures
        deliver_spec(
            grid_step(deliver_spec(grid_step(g, Command::MoveDown), rows1), Command::MoveUp),
            rows2,
        ).cursor == g.cursor,
{
}

/// Moving up one row and back down returns the highlight to where it was.
pub proof fn law_up_then_down(g: GridState, rows1: Seq<Seq<Seq<char>>>, rows2: Seq<Seq<Seq<char>>>)
    requires
        grid_inv(g),
        g.pending is None,
        g.cursor > 0,
    ensures
        deliver_spec(
            grid_step(deliver_spec(grid_step(g, Command::MoveUp), rows1), Command::MoveDown),
            rows2,
        ).cursor == g.cursor,
{
}

/// A page down followed by a page up returns the highlight to where it was
/// when a full page fits below it.
pub proof fn law_page_down_then_up(
    g: GridState,
    rows1: Seq<Seq<Seq<char>>>,
    rows2: Seq<Seq<Seq<char>>>,
)
    requires
        grid_inv(g),
        g.pending is None,
        g.cursor + PAGE_JUMP <= last_row(g.total),
    ensures
        deliver_spec(grid_step(g, Command::PageDown), rows1).cursor == g.cursor + PAGE_JUMP,
        deliver_spec(
            grid_step(deliver_spec(grid_step(g, Command::PageDown), rows1), Command::PageUp),
            rows2,
        ).cursor == g.cursor,
{
}

/// After a one-row move has completed, the highlighted row lies within the
/// rows the view shows.
pub proof fn law_move_keeps_cursor_in_view(g: GridState, command: Command, rows: Seq<Seq<Seq<char>>>)
    requires
        grid_inv(g),
        g.pending is None,
        command == Command::MoveUp || command == Command::MoveDown,
        deliver_spec(grid_step(g, command), rows).cursor != g.cursor,
    ensures
        ({
            let h = deliver_spec(grid_step(g, command), rows);
            h.scroll_top <= h.cursor - h.window_start < h.scroll_top + view_height(h)
        }),
{
}

/// Turning or switching the sort shows the sorted rows from the top.
pub proof fn law_sort_restarts_at_top(g: GridState, rows: Seq<Seq<Seq<char>>>)
    requires
        grid_inv(g),
        g.pending is None,
        g.columns.len() > 0,
    ensures
        grid_step(g, Command::OrderToggle).order == Some(toggled(g.order)),
        grid_step(g, Command::OrderToggle).cursor == 0,
        deliver_spec(grid_step(g, Command::OrderToggle), rows).cursor == 0,
        g.total != 0 ==> grid_step(g, Command::OrderToggle).pending == Some(
            PendingLoad { start: 0, after: AfterLoad::Stay },
        ),
{
}

/// A completed page up moves the highlight `PAGE_JUMP` rows up (to the first
/// row at most) and, when the loaded window holds it, shows it on the top row
/// of the view.
pub proof fn law_page_up_pins_top(g: GridState, rows: Seq<Seq<Seq<char>>>)
    requires
        grid_inv(g),
        g.pending is None,
        g.total > 0,
    ensures
        ({
            let h = deliver_spec(grid_step(g, Command::PageUp), rows);
            &&& h.cursor == (if g.cursor >= PAGE_JUMP {
                g.cursor - PAGE_JUMP
            } else {
                0
            })
            &&& holds_cursor(h) ==> h.scroll_top == h.cursor - h.window_start
            &&& holds_cursor(h) ==> selected_in_view_spec(h) == Some(0int)
        }),
{
}

/// A completed page down moves the highlight `PAGE_JUMP` rows down (to the
/// last row at most) and, when the loaded window holds it, shows it on the
/// bottom row of the view, or as low as the rows above it allow.
pub proof fn law_page_down_pins_bottom(g: GridState, rows: Seq<Seq<Seq<char>>>)
    requires
        grid_inv(g),
        g.pending is None,
        g.total > 0,
    ensures
        ({
            let h = deliver_spec(grid_step(g, Command::PageDown), rows);
            let local = h.cursor - h.window_start;
            let height = if h.viewport_rows >= 1 {
                h.viewport_rows
            } else {
                1
            };
            &&& h.cursor == (if g.cursor + PAGE_JUMP <= g.total - 1 {
                g.cursor + PAGE_JUMP
            } else {
                g.total - 1
            })
            &&& holds_cursor(h) ==> local - h.scroll_top == (if local >= height - 1 {
                height - 1
            } else {
                local
            })
        }),
{
}

/// Shift+Left and Shift+Right move the sort column by exactly one, stopping
/// at the first and the last column, whatever loads follow.
pub proof fn law_sort_column_moves_by_one(g: GridState, rows: Seq<Seq<Seq<char>>>)
    requires
        grid_inv(g),
        g.pending is None,
        g.columns.len() > 0,
    ensures
        grid_step(g, Command::SortColumnLeft).sort_col == (if g.sort_col > 0 {
            g.sort_col - 1
        } else {
            0
        }),
        grid_step(g, Command::SortColumnRight).sort_col == (if g.sort_col + 1 < g.columns.len() {
            g.sort_col + 1
        } else {
            g.sort_col
        }),
        deliver_spec(grid_step(g, Command::SortColumnLeft), rows).sort_col == grid_step(
            g,
            Command::SortColumnLeft,
        ).sort_col,
        deliver_spec(grid_step(g, Command::SortColumnRight), rows).sort_col == grid_step(
            g,
            Command::SortColumnRight,
        ).sort_col,
{
}

/// The sort toggle starts ascending and then alternates.
pub proof fn law_toggle_alternates()
    ensures
        toggled(Some(Order::Asc)) == Order::Desc,
        toggled(Some(Order::Desc)) == Order::Asc,
        toggled(None) == Order::Asc,
{
}

// ---------------------------------------------------------------------------
// The grid
// ---------------------------------------------------------------------------

/// The row grid for one opened table.
pub struct TableGrid {
    table: String,
    columns: Vec<Column>,
    total: i64,
    cursor: i64,
    window_start: i64,
    buffer: Vec<Vec<String>>,
    scroll_top: usize,
    viewport_rows: usize,
    sort_col: usize,
    order: Option<Order>,
    pending: Option<PendingLoad>,
}

impl View for TableGrid {
    type V = GridState;

    closed spec fn view(&self) -> GridState {
        GridState {
            table: self.table@,
            columns: self.columns@.map_values(|c: Column| c.name@),
            column_types: self.columns@.map_values(|c: Column| c.declared_type@),
            total: self.total as int,
            cursor: self.cursor as int,
            window_start: self.window_start as int,
            rows: self.buffer.deep_view(),
            scroll_top: self.scroll_top as int,
            viewport_rows: self.viewport_rows as int,
            sort_col: self.sort_col as int,
            order: self.order,
            pending: self.pending,
        }
    }
}

fn last_row_of(total: i64) -> (r: i64)
    ensures
        r == last_row(total as int),
{
    if total <= 0 {
        0
    } else {
        total - 1
    }
}

impl TableGrid {
    proof fn lemma_view(&self)
        ensures
            self@.columns.len() == self.columns@.len(),
            self@.column_types.len() == self.columns@.len(),
            self@.rows.len() == self.buffer@.len(),
            forall|i: int|
                0 <= i < self.columns@.len() ==> #[trigger] self@.columns[i]
                    == self.columns@[i].name@,
            forall|i: int|
                0 <= i < self.columns@.len() ==> #[trigger] self@.column_types[i]
                    == self.columns@[i].declared_type@,
    {
    }

    /// Open a table into a row grid. The first window of rows is left pending.
    pub fn new(table: String, columns: Vec<Column>, total: i64) -> (grid: Self)
        ensures
            grid@ == reload(
                opened(
                    table@,
                    columns@.map_values(|c: Column| c.name@),
                    columns@.map_values(|c: Column| c.declared_type@),
                    total as int,
                ),
                AfterLoad::Stay,
            ),
            grid_inv(grid@),
    {
        let mut grid = TableGrid {
            table,
            columns,
            total,
            cursor: 0,
            window_start: 0,
            buffer: Vec::new(),
            scroll_top: 0,
            viewport_rows: 20,
            sort_col: 0,
            order: None,
            pending: None,
        };
        assert(grid.buffer.deep_view() =~= Seq::<Seq<Seq<char>>>::empty());
        grid.reload(AfterLoad::Stay);
        grid
    }

    /// Handle one command. Returns an action only when the command leaves the
    /// screen. A move that leaves the loaded window leaves a load pending.
    pub fn handle(&mut self, command: Command) -> (reply: Option<Action>)
        requires
            grid_inv(old(self)@),
            old(self)@.pending is None,
        ensures
            final(self)@ == grid_step(old(self)@, command),
            grid_inv(final(self)@),
            reply == grid_reply(command),
    {
        match command {
            Command::MoveUp => {
                self.move_rows(-1);
                None
            },
            Command::MoveDown => {
                self.move_rows(1);
                None
            },
            Command::Open => None,
            Command::Back => Some(Action::BackToList),
            Command::Type(_) | Command::EraseChar => None,
            Command::SortColumnLeft => {
                self.move_sort_col(-1);
                None
            },
            Command::SortColumnRight => {
                self.move_sort_col(1);
                None
            },
            Command::OrderToggle => {
                let direction = match self.order {
                    Some(Order::Asc) => Order::Desc,
                    _ => Order::Asc,
                };
                self.set_order(direction);
                None
            },
            Command::PageUp => {
                self.page_up();
                None
            },
            Command::PageDown => {
                self.page_down();
                None
            },
            Command::Quit => Some(Action::Quit),
        }
    }

    /// The window the grid waits for, if any.
    pub fn pending_load(&self) -> (q: Option<WindowQuery>)
        requires
            grid_inv(self@),
        ensures
            q is None <==> self@.pending is None,
            q matches Some(q) ==> load_query_spec(self@, q),
    {
        match self.pending {
            None => None,
            Some(p) => {
                let sort = match self.order {
                    None => None,
                    Some(o) => {
                        let column = if self.sort_col < self.columns.len() {
                            self.columns[self.sort_col].name.clone()
                        } else {
                            String::new()
                        };
                        proof {
                            self.lemma_view();
                        }
                        Some(SortKey { column, ascending: o == Order::Asc })
                    },
                };
                Some(WindowQuery { table: self.table.clone(), sort, offset: p.start, limit: PAGE_ROWS })
            },
        }
    }

    /// Hand over the rows of the pending window (at most `PAGE_ROWS`); the
    /// waiting move completes. Without a pending window the rows are dropped.
    pub fn deliver(&mut self, rows: Vec<Vec<String>>)
        requires
            grid_inv(old(self)@),
            rows@.len() <= PAGE_ROWS,
        ensures
            final(self)@ == deliver_spec(old(self)@, rows.deep_view()),
            grid_inv(final(self)@),
    {
        match self.pending {
            None => {},
            Some(p) => {
                self.buffer = rows;
                self.window_start = p.start;
                self.scroll_top = 0;
                self.pending = None;
                self.finish(p.after);
            },
        }
    }

    /// Name of the table being viewed.
    pub fn name(&self) -> (n: &str)
        ensures
            n@ == self@.table,
    {
        self.table.as_str()
    }

    /// Zero-based absolute row index of the highlight.
    pub fn cursor(&self) -> (c: i64)
        ensures
            c == self@.cursor,
    {
        self.cursor
    }

    /// Total number of rows in the table.
    pub fn total(&self) -> (t: i64)
        ensures
            t == self@.total,
    {
        self.total
    }

    /// Move the highlight by one row and keep it inside the visible window.
    fn move_rows(&mut self, delta: i64)
        requires
            grid_inv(old(self)@),
            old(self)@.pending is None,
            delta == -1 || delta == 1,
        ensures
            final(self)@ == move_rows(old(self)@, delta as int),
            grid_inv(final(self)@),
    {
        let last = last_row_of(self.total);
        let moved = self.cursor + delta;
        let next = if moved < 0 {
            0
        } else if moved > last {
            last
        } else {
            moved
        };
        if next == self.cursor {
            return ;
        }
        self.cursor = next;
        self.reload(AfterLoad::KeepVisible);
    }

    /// Jump 50 rows up and pin the highlight to the top row of the view.
    fn page_up(&mut self)
        requires
            grid_inv(old(self)@),
            old(self)@.pending is None,
        ensures
            final(self)@ == page_up(old(self)@),
            grid_inv(final(self)@),
    {
        if self.total <= 0 {
            return ;
        }
        self.cursor = if self.cursor < PAGE_JUMP {
            0
        } else {
            self.cursor - PAGE_JUMP
        };
        self.reload(AfterLoad::PinTop);
    }

    /// Jump 50 rows down and pin the highlight to the bottom row of the view.
    fn page_down(&mut self)
        requires
            grid_inv(old(self)@),
            old(self)@.pending is None,
        ensures
            final(self)@ == page_down(old(self)@),
            grid_inv(final(self)@),
    {
        if self.total <= 0 {
            return ;
        }
        let last = self.total - 1;
        self.cursor = if last - self.cursor < PAGE_JUMP {
            last
        } else {
            self.cursor + PAGE_JUMP
        };
        self.reload(AfterLoad::PinBottom);
    }

    /// Index of the highlight within the loaded buffer, clamped to the buffer.
    fn local_row(&self) -> (r: usize)
        requires
            0 <= self@.window_start <= self@.cursor,
        ensures
            r == local_row(self@),
    {
        let d = self.cursor - self.window_start;
        let len = self.buffer.len();
        let top = if len >= 1 {
            len - 1
        } else {
            0
        };
        if (d as u64) < (top as u64) {
            d as usize
        } else {
            top
        }
    }

    /// Move the chosen sort column left or right. Re-sorts if sorting is on.
    fn move_sort_col(&mut self, delta: i64)
        requires
            grid_inv(old(self)@),
            old(self)@.pending is None,
            delta == -1 || delta == 1,
        ensures
            final(self)@ == move_sort_col(old(self)@, delta as int),
            grid_inv(final(self)@),
    {
        proof {
            self.lemma_view();
        }
        let n = self.columns.len();
        if n == 0 {
            return ;
        }
        if delta < 0 {
            if self.sort_col > 0 {
                self.sort_col = self.sort_col - 1;
            }
        } else {
            if self.sort_col + 1 < n {
                self.sort_col = self.sort_col + 1;
            }
        }
        if self.order.is_some() {
            self.reset_to_top();
        }
    }

    /// Set the sort direction for the chosen column and show the sorted top.
    fn set_order(&mut self, direction: Order)
        requires
            grid_inv(old(self)@),
            old(self)@.pending is None,
        ensures
            final(self)@ == set_order(old(self)@, direction),
            grid_inv(final(self)@),
    {
        proof {
            self.lemma_view();
        }
        if self.columns.len() == 0 {
            return ;
        }
        self.order = Some(direction);
        self.reset_to_top();
    }

    /// Clear the loaded window and go back to the first sorted row.
    fn reset_to_top(&mut self)
        requires
            grid_inv(old(self)@),
            old(self)@.pending is None,
        ensures
            final(self)@ == reset_to_top(old(self)@),
            grid_inv(final(self)@),
    {
        self.cursor = 0;
        self.window_start = 0;
        self.scroll_top = 0;
        self.buffer.clear();
        assert(self.buffer.deep_view() =~= Seq::<Seq<Seq<char>>>::empty());
        self.reload(AfterLoad::Stay);
    }

    /// Keep the loaded window when it holds the highlight, else ask for the
    /// window around it.
    fn reload(&mut self, after: AfterLoad)
        requires
            old(self)@.rows.len() <= PAGE_ROWS,
            old(self)@.pending is None,
            0 <= old(self)@.cursor <= last_row(old(self)@.total),
            0 <= old(self)@.window_start <= last_row(old(self)@.total),
            0 <= old(self)@.sort_col,
            old(self)@.columns.len() == 0 ==> old(self)@.sort_col == 0,
            old(self)@.columns.len() > 0 ==> old(self)@.sort_col < old(self)@.columns.len(),
        ensures
            final(self)@ == reload(old(self)@, after),
            grid_inv(final(self)@),
    {
        let len = self.buffer.len();
        let inside = self.cursor >= self.window_start && ((self.cursor - self.window_start) as u64)
            < (len as u64);
        if self.total == 0 || (inside && len > 0) {
            self.finish(after);
            return ;
        }
        let last = last_row_of(self.total);
        let low = self.cursor - PAGE_MARGIN;
        let start = if low < 0 {
            0
        } else if low > last {
            last
        } else {
            low
        };
        self.pending = Some(PendingLoad { start, after });
    }

    /// Complete a move on the loaded window.
    fn finish(&mut self, after: AfterLoad)
        requires
            old(self)@.rows.len() <= PAGE_ROWS,
            old(self)@.pending is None,
            0 <= old(self)@.cursor <= last_row(old(self)@.total),
            0 <= old(self)@.window_start <= old(self)@.cursor,
            old(self)@.window_start <= last_row(old(self)@.total),
            old(self)@.cursor - old(self)@.window_start <= PAGE_MARGIN || old(self)@.cursor
                - old(self)@.window_start < old(self)@.rows.len(),
            0 <= old(self)@.sort_col,
            old(self)@.columns.len() == 0 ==> old(self)@.sort_col == 0,
            old(self)@.columns.len() > 0 ==> old(self)@.sort_col < old(self)@.columns.len(),
        ensures
            final(self)@ == finish(old(self)@, after),
            grid_inv(final(self)@),
    {
        match after {
            AfterLoad::KeepVisible => self.keep_cursor_visible(),
            AfterLoad::PinTop => {
                let local = self.local_row();
                let len = self.buffer.len();
                let top = if len >= 1 {
                    len - 1
                } else {
                    0
                };
                self.scroll_top = if local < top {
                    local
                } else {
                    top
                };
            },
            AfterLoad::PinBottom => {
                let height = if self.viewport_rows < 1 {
                    1
                } else {
                    self.viewport_rows
                };
                let local = self.local_row();
                let len = self.buffer.len();
                let top = if len >= 1 {
                    len - 1
                } else {
                    0
                };
                let above = if local + 1 >= height {
                    local + 1 - height
                } else {
                    0
                };
                self.scroll_top = if above < top {
                    above
                } else {
                    top
                };
            },
            AfterLoad::Stay => {},
        }
    }

    /// Keep the highlighted row inside the visible part of the data area.
    fn keep_cursor_visible(&mut self)
        requires
            old(self)@.rows.len() <= PAGE_ROWS,
            old(self)@.pending is None,
            0 <= old(self)@.cursor <= last_row(old(self)@.total),
            0 <= old(self)@.window_start <= old(self)@.cursor,
            old(self)@.window_start <= last_row(old(self)@.total),
            old(self)@.cursor - old(self)@.window_start <= PAGE_MARGIN || old(self)@.cursor
                - old(self)@.window_start < old(self)@.rows.len(),
            0 <= old(self)@.sort_col,
            old(self)@.columns.len() == 0 ==> old(self)@.sort_col == 0,
            old(self)@.columns.len() > 0 ==> old(self)@.sort_col < old(self)@.columns.len(),
        ensures
            final(self)@ == keep_visible(old(self)@),
            grid_inv(final(self)@),
    {
        proof {
            self.lemma_view();
        }
        let height = if self.viewport_rows < 1 {
            1
        } else {
            self.viewport_rows
        };
        let len = self.buffer.len();
        let d = self.cursor - self.window_start;
        assert(d <= PAGE_MARGIN || d < len);
        let local = d as usize;
        if local < self.scroll_top {
            self.scroll_top = local;
        } else if local - self.scroll_top >= height {
            self.scroll_top = local + 1 - height;
        }
    }

    /// Fit the grid to a drawing area of `area_height` rows: the data area is
    /// what is left below the border and the header row.
    pub fn set_area_height(&mut self, area_height: u16)
        requires
            grid_inv(old(self)@),
        ensures
            final(self)@ == (GridState { viewport_rows: sat_sub(area_height as int, 3), ..old(self)@ }),
            grid_inv(final(self)@),
    {
        self.viewport_rows = if area_height >= 3 {
            (area_height - 3) as usize
        } else {
            0
        };
    }

    /// The loaded window of rows.
    pub fn rows(&self) -> (r: &Vec<Vec<String>>)
        ensures
            r.deep_view() == self@.rows,
    {
        &self.buffer
    }

    /// The loaded rows that the view shows, as `[start, end)`.
    pub fn visible_range(&self) -> (r: (usize, usize))
        requires
            grid_inv(self@),
        ensures
            r.0 as int == visible_range_spec(self@).0,
            r.1 as int == visible_range_spec(self@).1,
    {
        proof {
            self.lemma_view();
        }
        let len = self.buffer.len();
        let height = if self.viewport_rows < 1 {
            1
        } else {
            self.viewport_rows
        };
        let start = if self.scroll_top < len {
            self.scroll_top
        } else {
            len
        };
        let end = if len - start <= height {
            len
        } else {
            start + height
        };
        (start, end)
    }

    /// The highlighted row's position within the view, if it is not above it.
    pub fn selected_in_view(&self) -> (s: Option<usize>)
        requires
            grid_inv(self@),
            self@.pending is None,
        ensures
            s matches Some(i) ==> selected_in_view_spec(self@) == Some(i as int),
            s is None ==> selected_in_view_spec(self@) is None,
    {
        proof {
            self.lemma_view();
        }
        let (start, _) = self.visible_range();
        let len = self.buffer.len();
        let d = self.cursor - self.window_start;
        assert(d <= PAGE_MARGIN || d < len);
        let local = d as usize;
        if local >= start {
            Some(local - start)
        } else {
            None
        }
    }

    /// The header texts, one per column.
    pub fn header_labels(&self) -> (labels: Vec<String>)
        requires
            grid_inv(self@),
        ensures
            labels@.len() == self@.columns.len(),
            forall|i: int| 0 <= i < labels@.len() ==> #[trigger] labels@[i]@ == header_label(self@, i),
    {
        proof {
            self.lemma_view();
        }
        let n = self.columns.len();
        let mut labels: Vec<String> = Vec::new();
        let mut i: usize = 0;
        while i < n
            invariant
                i <= n,
                n == self.columns@.len(),
                n == self@.columns.len(),
                labels@.len() == i,
                forall|j: int| 0 <= j < i ==> #[trigger] labels@[j]@ == header_label(self@, j),
                forall|j: int|
                    0 <= j < self.columns@.len() ==> #[trigger] self@.columns[j]
                        == self.columns@[j].name@,
                forall|j: int|
                    0 <= j < self.columns@.len() ==> #[trigger] self@.column_types[j]
                        == self.columns@[j].declared_type@,
            decreases n - i,
        {
            let mut text = self.columns[i].name.clone();
            if self.columns[i].declared_type.as_str().unicode_len() > 0 {
                text.append(" ");
                text.append(self.columns[i].declared_type.as_str());
            }
            if i == self.sort_col {
                match self.order {
                    Some(direction) => {
                        text.append(direction.marker());
                    },
                    None => {},
                }
            }
            labels.push(text);
            i = i + 1;
        }
        labels
    }

    /// Whether column `i` is the chosen sort column.
    pub fn is_sort_column(&self, i: usize) -> (b: bool)
        ensures
            b == (i as int == self@.sort_col),
    {
        i == self.sort_col
    }

    /// Number of columns of the table.
    pub fn column_count(&self) -> (n: usize)
        ensures
            n == self@.columns.len(),
    {
        proof {
            self.lemma_view();
        }
        self.columns.len()
    }

    /// The title: ` <table> — <total> rows `.
    pub fn title(&self) -> (t: String)
        ensures
            t@ == title_spec(self@),
    {
        let mut t = String::from_str(" ");
        t.append(self.table.as_str());
        t.append(" — ");
        push_signed(&mut t, self.total);
        t.append(" rows ");
        t
    }
}

} // verus!
