//! The application shell. Before a database is open it shows the directory
//! picker; once a database is open it switches between the table list and the
//! row grid. Each screen holds its own state.
//!
//! The shell decides; the caller does the outside work. After each key the
//! caller asks `pending_work` and hands each result back, until nothing is
//! pending: scanning a directory, opening a database file, reading a table's
//! columns and row count, and loading a window of rows.
use vstd::prelude::*;
use vstd::string::*;

use crate::action::{reply_view, Action, ActionView};
use crate::bindings::{
    browse_command,
    command_for_key,
    command_for_text_key,
    help_for_grid,
    help_for_list,
    text_command,
    Command,
    KeyCode,
    KeyModifiers,
};
use crate::grid::{
    grid_inv,
    grid_reply,
    grid_step,
    load_query_spec,
    opened,
    reload,
    AfterLoad,
    GridState,
    TableGrid,
};
use crate::picker::{
    finish_scan_spec,
    initial_picker,
    opt_text,
    picker_inv,
    picker_reply,
    picker_step,
    scan_outcome_view,
    Picker,
    PickerState,
    PickerView,
};
use crate::query::{Column, WindowQuery};
use crate::tables::{list_reply, list_step, table_list_inv, TableList, TableListView};
use crate::text::{decimal, push_decimal, push_signed, signed_decimal};

verus! {

/// Outside work the shell waits for.
pub enum Work {
    /// List the databases under a directory (hand back with `scan_finished`).
    Scan(String),
    /// Open the database file at a path (hand back with `database_opened` or
    /// `database_failed`).
    OpenDatabase(String),
    /// Read the columns and the row count of a table (hand back with
    /// `table_opened`).
    OpenTable(String),
    /// Load a window of rows (hand back with `rows_loaded`).
    LoadRows(WindowQuery),
}

/// The screen that is showing.
#[derive(Debug, Clone, Copy, PartialEq, Eq, Structural)]
pub enum Screen {
    Picker,
    TableList,
    Grid,
}

/// The mathematical model of the shell.
pub struct ShellView {
    /// Whether a database is open.
    pub browsing: bool,
    /// Display path of the open database, for the header.
    pub db_path: Seq<char>,
    pub picker: PickerView,
    pub list: TableListView,
    pub grid: Option<GridState>,
    pub should_quit: bool,
    /// The database file the shell waits to have opened, if any.
    pub opening: Option<Seq<char>>,
    /// The table whose columns and row count the shell waits for, if any.
    pub opening_table: Option<Seq<char>>,
}

// ---------------------------------------------------------------------------
// Specification
// ---------------------------------------------------------------------------

pub open spec fn shell_inv(s: ShellView) -> bool {
    &&& picker_inv(s.picker)
    &&& table_list_inv(s.list)
    &&& (s.grid matches Some(g) ==> grid_inv(g))
    &&& (s.grid is Some ==> s.browsing)
    &&& (s.opening_table is Some ==> s.browsing)
}

/// Nothing is pending: the shell is ready for the next key.
pub open spec fn idle(s: ShellView) -> bool {
    &&& s.picker.pending_scan is None
    &&& s.opening is None
    &&& s.opening_table is None
    &&& (s.grid matches Some(g) ==> g.pending is None)
}

pub open spec fn initial_shell() -> ShellView {
    ShellView {
        browsing: false,
        db_path: seq![],
        picker: initial_picker(),
        list: TableListView { tables: seq![], list_index: 0 },
        grid: None,
        should_quit: false,
        opening: None,
        opening_table: None,
    }
}

pub open spec fn screen_of(s: ShellView) -> Screen {
    if !s.browsing {
        Screen::Picker
    } else if s.grid is Some {
        Screen::Grid
    } else {
        Screen::TableList
    }
}

/// The command of a key: Ctrl and Alt combinations are dropped; while the
/// picker takes a typed directory, keys are text; otherwise they navigate.
pub open spec fn shell_command(s: ShellView, code: KeyCode, mods: KeyModifiers) -> Option<
    Command,
> {
    if mods.control || mods.alt {
        None
    } else if !s.browsing && s.picker.state == PickerState::DirectoryInput {
        text_command(code)
    } else {
        browse_command(code, mods)
    }
}

/// The showing screen handles a command.
pub open spec fn dispatch(s: ShellView, command: Command) -> (ShellView, Option<ActionView>) {
    if s.browsing {
        match s.grid {
            Some(g) => (
                ShellView { grid: Some(grid_step(g, command)), ..s },
                reply_view(grid_reply(command)),
            ),
            None => (ShellView { list: list_step(s.list, command), ..s }, list_reply(s.list, command)),
        }
    } else {
        (ShellView { picker: picker_step(s.picker, command), ..s }, picker_reply(s.picker, command))
    }
}

/// The shell carries out an action of a screen.
pub open spec fn apply(s: ShellView, action: Option<ActionView>) -> ShellView {
    match action {
        None => s,
        Some(ActionView::Quit) => ShellView { should_quit: true, ..s },
        Some(ActionView::BackToList) => ShellView { grid: None, ..s },
        Some(ActionView::BackToPicker) => ShellView { browsing: false, grid: None, ..s },
        Some(ActionView::OpenTable(name)) => if s.browsing {
            ShellView { opening_table: Some(name), ..s }
        } else {
            s
        },
        Some(ActionView::PickDatabase(path)) => ShellView { opening: Some(path), ..s },
    }
}

/// The shell after a key.
pub open spec fn key_step(s: ShellView, code: KeyCode, mods: KeyModifiers) -> ShellView {
    match shell_command(s, code, mods) {
        None => s,
        Some(command) => {
            let (t, action) = dispatch(s, command);
            apply(t, action)
        },
    }
}

/// Entering the browse screens for an opened database.
pub open spec fn enter_browse(s: ShellView, path: Seq<char>, tables: Seq<Seq<char>>) -> ShellView {
    ShellView {
        list: TableListView { tables, list_index: 0 },
        db_path: path,
        grid: None,
        browsing: true,
        opening: None,
        ..s
    }
}

/// The message shown in the picker when a database cannot be opened.
pub open spec fn open_failure_text(path: Seq<char>, error: Seq<char>) -> Seq<char> {
    "Cannot open database "@ + path + ": "@ + error
}

pub open spec fn header_spec(s: ShellView) -> Seq<char> {
    if s.browsing {
        " r-sqlite  "@ + s.db_path
    } else {
        "R-SQLite"@
    }
}

pub open spec fn picker_help_spec(p: PickerView) -> Seq<char> {
    if p.state == PickerState::DirectoryInput {
        "type a directory | Backspace: delete | Enter: scan | Esc: exit"@
    } else {
        "↑/↓: scroll | PgUp/PgDn: 50 | →: open | ←: change directory | Esc: exit"@
    }
}

pub open spec fn footer_spec(s: ShellView) -> Seq<char> {
    if !s.browsing {
        " "@ + picker_help_spec(s.picker) + " "@
    } else {
        match s.grid {
            Some(g) => " table "@ + g.table + " | row "@ + signed_decimal(g.cursor + 1) + "/"@
                + signed_decimal(g.total) + " | "@
                + "↑/↓: scroll | PgUp/PgDn: 50 rows | Shift+←/→: sort column | Space: sort direction | ←: back | Esc: exit"@
                + " "@,
            None => " "@ + decimal(s.list.tables.len()) + " object(s) | "@
                + "↑/↓: scroll | →: open | ←: change database | Esc: exit"@ + " "@,
        }
    }
}

// ---------------------------------------------------------------------------
// Laws
// ---------------------------------------------------------------------------

/// Every key keeps the shell's invariant.
pub proof fn law_key_keeps_invariant(s: ShellView, code: KeyCode, mods: KeyModifiers)
    requires
        shell_inv(s),
        idle(s),
    ensures
        shell_inv(key_step(s, code, mods)),
{
    match shell_command(s, code, mods) {
        None => {},
        Some(command) => {
            if s.browsing {
                match s.grid {
                    Some(g) => {
                        crate::grid::law_step_keeps_invariant(g, command);
                    },
                    None => {
                        crate::tables::law_step_keeps_invariant(s.list, command);
                    },
                }
            } else {
                crate::picker::law_step_keeps_invariant(s.picker, command);
            }
        },
    }
}

/// Ctrl and Alt combinations never change anything.
pub proof fn law_modified_keys_ignored(s: ShellView, code: KeyCode, mods: KeyModifiers)
    requires
        mods.control || mods.alt,
    ensures
        key_step(s, code, mods) == s,
{
}

/// `Esc` always ends the application, on every screen.
pub proof fn law_esc_quits(s: ShellView, mods: KeyModifiers)
    requires
        !mods.control && !mods.alt,
    ensures
        key_step(s, KeyCode::Esc, mods).should_quit,
{
}

/// Going back from the row grid returns to the table list as it was left.
pub proof fn law_back_from_grid_keeps_list(s: ShellView, mods: KeyModifiers)
    requires
        s.browsing,
        s.grid is Some,
        !mods.control && !mods.alt,
        !mods.shift,
    ensures
        key_step(s, KeyCode::Left, mods).grid is None,
        key_step(s, KeyCode::Left, mods).list == s.list,
        key_step(s, KeyCode::Left, mods).browsing,
{
}

/// While the picker takes a typed directory, every printable key is typed,
/// `q` and `x` included: only `Esc` quits.
pub proof fn law_typing_is_text(s: ShellView, c: char, mods: KeyModifiers)
    requires
        !s.browsing,
        s.picker.state == PickerState::DirectoryInput,
        !mods.control && !mods.alt,
        !crate::text::is_control_char(c),
    ensures
        key_step(s, KeyCode::Char(c), mods).picker.input == s.picker.input.push(c),
        !key_step(s, KeyCode::Char(c), mods).should_quit || s.should_quit,
{
}

// ---------------------------------------------------------------------------
// The shell
// ---------------------------------------------------------------------------

/// The application shell.
pub struct Shell {
    browsing: bool,
    db_path: String,
    picker: Picker,
    list: TableList,
    grid: Option<TableGrid>,
    should_quit: bool,
    opening: Option<String>,
    opening_table: Option<String>,
}

pub open spec fn opt_grid(g: Option<TableGrid>) -> Option<GridState> {
    match g {
        Some(g) => Some(g@),
        None => None,
    }
}

impl View for Shell {
    type V = ShellView;

    closed spec fn view(&self) -> ShellView {
        ShellView {
            browsing: self.browsing,
            db_path: self.db_path@,
            picker: self.picker@,
            list: self.list@,
            grid: opt_grid(self.grid),
            should_quit: self.should_quit,
            opening: opt_text(self.opening),
            opening_table: opt_text(self.opening_table),
        }
    }
}

impl Shell {
    /// Build the shell, starting at the directory picker.
    pub fn new() -> (s: Self)
        ensures
            s@ == initial_shell(),
            shell_inv(s@),
    {
        let s = Shell {
            browsing: false,
            db_path: String::new(),
            picker: Picker::new(),
            list: TableList::new(Vec::new()),
            grid: None,
            should_quit: false,
            opening: None,
            opening_table: None,
        };
        assert(s@.list.tables =~= Seq::<Seq<char>>::empty());
        s
    }

    /// Whether the user asked to quit.
    pub fn should_quit(&self) -> (b: bool)
        ensures
            b == self@.should_quit,
    {
        self.should_quit
    }

    /// The screen that is showing.
    pub fn screen(&self) -> (r: Screen)
        ensures
            r == screen_of(self@),
    {
        if !self.browsing {
            Screen::Picker
        } else if self.grid.is_some() {
            Screen::Grid
        } else {
            Screen::TableList
        }
    }

    /// Choose which key mapping applies. While the picker is accepting a typed
    /// directory, characters and editing keys go through the text mapping so
    /// that, for example, `x` types a letter instead of quitting. Ctrl and Alt
    /// combinations map to nothing.
    pub fn map_command(&self, code: KeyCode, mods: KeyModifiers) -> (c: Option<Command>)
        ensures
            c == shell_command(self@, code, mods),
    {
        if mods.control || mods.alt {
            None
        } else if !self.browsing && self.picker.is_typing() {
            command_for_text_key(code, mods)
        } else {
            command_for_key(code, mods)
        }
    }

    /// Handle one key. Return whether the frame changed and must be redrawn.
    pub fn key(&mut self, code: KeyCode, mods: KeyModifiers) -> (redraw: bool)
        requires
            shell_inv(old(self)@),
            idle(old(self)@),
        ensures
            final(self)@ == key_step(old(self)@, code, mods),
            shell_inv(final(self)@),
            redraw == (shell_command(old(self)@, code, mods) is Some),
    {
        let command = match self.map_command(code, mods) {
            None => {
                return false;
            },
            Some(c) => c,
        };
        let action = if self.browsing {
            match self.grid.take() {
                Some(mut g) => {
                    let a = g.handle(command);
                    self.grid = Some(g);
                    a
                },
                None => self.list.handle(command),
            }
        } else {
            self.picker.handle(command)
        };
        self.apply(action);
        true
    }

    /// Carry out an action returned by the showing screen.
    fn apply(&mut self, action: Option<Action>)
        requires
            shell_inv(old(self)@),
            old(self)@.opening_table is None,
        ensures
            final(self)@ == apply(old(self)@, reply_view(action)),
            shell_inv(final(self)@),
    {
        let action = match action {
            None => {
                return ;
            },
            Some(a) => a,
        };
        match action {
            Action::Quit => self.should_quit = true,
            Action::BackToList => self.grid = None,
            Action::BackToPicker => {
                self.browsing = false;
                self.grid = None;
            },
            Action::OpenTable(name) => {
                if self.browsing {
                    self.opening_table = Some(name);
                }
            },
            Action::PickDatabase(path) => self.opening = Some(path),
        }
    }

    /// The outside work the shell waits for, if any.
    pub fn pending_work(&self) -> (w: Option<Work>)
        requires
            shell_inv(self@),
        ensures
            w is None <==> idle(self@),
            w matches Some(Work::Scan(d)) ==> self@.picker.pending_scan == Some(d@),
            w matches Some(Work::OpenDatabase(p)) ==> self@.picker.pending_scan is None
                && self@.opening == Some(p@),
            w matches Some(Work::OpenTable(t)) ==> self@.picker.pending_scan is None
                && self@.opening is None && self@.opening_table == Some(t@),
            w matches Some(Work::LoadRows(q)) ==> (idle(ShellView { grid: None, ..self@ })
                && (self@.grid matches Some(g) && load_query_spec(g, q))),
    {
        match self.picker.pending_scan() {
            Some(dir) => {
                return Some(Work::Scan(dir));
            },
            None => {},
        }
        match &self.opening {
            Some(p) => {
                return Some(Work::OpenDatabase(p.clone()));
            },
            None => {},
        }
        match &self.opening_table {
            Some(t) => {
                return Some(Work::OpenTable(t.clone()));
            },
            None => {},
        }
        match &self.grid {
            Some(g) => match g.pending_load() {
                Some(q) => Some(Work::LoadRows(q)),
                None => None,
            },
            None => None,
        }
    }

    /// Hand over the outcome of the pending directory scan.
    pub fn scan_finished(&mut self, outcome: Result<Vec<String>, String>)
        requires
            shell_inv(old(self)@),
        ensures
            final(self)@ == (ShellView {
                picker: finish_scan_spec(old(self)@.picker, scan_outcome_view(outcome)),
                ..old(self)@
            }),
            shell_inv(final(self)@),
    {
        self.picker.finish_scan(outcome);
    }

    /// A database is open: show its tables and objects. Used both for the
    /// database picked in the picker and for one named at start-up.
    pub fn database_opened(&mut self, path: String, tables: Vec<String>)
        requires
            shell_inv(old(self)@),
        ensures
            final(self)@ == enter_browse(old(self)@, path@, tables@.map_values(|t: String| t@)),
            shell_inv(final(self)@),
    {
        self.list = TableList::new(tables);
        self.db_path = path;
        self.grid = None;
        self.browsing = true;
        self.opening = None;
    }

    /// The picked database could not be opened: show why in the picker.
    pub fn database_failed(&mut self, path: &str, error: &str)
        requires
            shell_inv(old(self)@),
        ensures
            final(self)@ == (ShellView {
                picker: PickerView {
                    status: Some(open_failure_text(path@, error@)),
                    ..old(self)@.picker
                },
                opening: None,
                ..old(self)@
            }),
            shell_inv(final(self)@),
    {
        let mut message = String::from_str("Cannot open database ");
        message.append(path);
        message.append(": ");
        message.append(error);
        self.picker.report(message);
        self.opening = None;
    }

    /// Hand over the columns and row count of the table being opened: it opens
    /// in the row grid, whose first window of rows is then pending.
    pub fn table_opened(&mut self, columns: Vec<Column>, total: i64)
        requires
            shell_inv(old(self)@),
        ensures
            old(self)@.opening_table matches Some(name) ==> final(self)@ == (ShellView {
                grid: Some(
                    reload(
                        opened(
                            name,
                            columns@.map_values(|c: Column| c.name@),
                            columns@.map_values(|c: Column| c.declared_type@),
                            total as int,
                        ),
                        AfterLoad::Stay,
                    ),
                ),
                opening_table: None,
                ..old(self)@
            }),
            old(self)@.opening_table is None ==> final(self)@ == old(self)@,
            shell_inv(final(self)@),
    {
        match self.opening_table.take() {
            Some(name) => {
                self.grid = Some(TableGrid::new(name, columns, total));
            },
            None => {},
        }
    }

    /// Hand over the rows of the window the grid waits for (at most
    /// `PAGE_ROWS`).
    pub fn rows_loaded(&mut self, rows: Vec<Vec<String>>)
        requires
            shell_inv(old(self)@),
            rows@.len() <= crate::grid::PAGE_ROWS,
        ensures
            final(self)@ == (ShellView {
                grid: match old(self)@.grid {
                    Some(g) => Some(crate::grid::deliver_spec(g, rows.deep_view())),
                    None => None,
                },
                ..old(self)@
            }),
            shell_inv(final(self)@),
    {
        match self.grid.take() {
            Some(mut g) => {
                g.deliver(rows);
                self.grid = Some(g);
            },
            None => {},
        }
    }

    /// The picker.
    pub fn picker(&self) -> (p: &Picker)
        ensures
            p@ == self@.picker,
    {
        &self.picker
    }

    /// The table list.
    pub fn list(&self) -> (l: &TableList)
        ensures
            l@ == self@.list,
    {
        &self.list
    }

    /// The row grid, when a table is open.
    pub fn grid(&self) -> (g: Option<&TableGrid>)
        ensures
            match g {
                Some(g) => self@.grid == Some(g@),
                None => self@.grid is None,
            },
    {
        match &self.grid {
            Some(g) => Some(g),
            None => None,
        }
    }

    /// Fit the row grid to a drawing area of `area_height` rows.
    pub fn fit_grid(&mut self, area_height: u16)
        requires
            shell_inv(old(self)@),
        ensures
            shell_inv(final(self)@),
            final(self)@.grid is Some == old(self)@.grid is Some,
            final(self)@.grid matches Some(g) ==> g == (GridState {
                viewport_rows: crate::grid::sat_sub(area_height as int, 3),
                ..old(self)@.grid->0
            }),
            final(self)@ == (ShellView { grid: final(self)@.grid, ..old(self)@ }),
    {
        match self.grid.take() {
            Some(mut g) => {
                g.set_area_height(area_height);
                self.grid = Some(g);
            },
            None => {},
        }
    }

    /// Fit the picker's database list to an area of `area_height` rows.
    pub fn fit_picker_list(&mut self, area_height: u16)
        requires
            shell_inv(old(self)@),
        ensures
            shell_inv(final(self)@),
            final(self)@ == (ShellView {
                picker: PickerView {
                    list_height: crate::grid::max(crate::grid::sat_sub(area_height as int, 2), 1),
                    ..old(self)@.picker
                },
                ..old(self)@
            }),
    {
        self.picker.fit_list(area_height);
    }

    /// The header line.
    pub fn header_text(&self) -> (t: String)
        ensures
            t@ == header_spec(self@),
    {
        if self.browsing {
            let mut t = String::from_str(" r-sqlite  ");
            t.append(self.db_path.as_str());
            t
        } else {
            String::from_str("R-SQLite")
        }
    }

    /// The footer line: where the user is and which keys apply.
    pub fn footer_text(&self) -> (t: String)
        requires
            shell_inv(self@),
        ensures
            t@ == footer_spec(self@),
    {
        if !self.browsing {
            let mut t = String::from_str(" ");
            t.append(self.picker.footer_help());
            t.append(" ");
            return t;
        }
        match &self.grid {
            Some(g) => {
                let mut t = String::from_str(" table ");
                t.append(g.name());
                t.append(" | row ");
                push_signed(&mut t, g.cursor() + 1);
                t.append("/");
                push_signed(&mut t, g.total());
                t.append(" | ");
                t.append(help_for_grid());
                t.append(" ");
                t
            },
            None => {
                let mut t = String::from_str(" ");
                push_decimal(&mut t, self.list.len() as u64);
                t.append(" object(s) | ");
                t.append(help_for_list());
                t.append(" ");
                t
            },
        }
    }
}

} // verus!
