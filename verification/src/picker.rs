//! The opening screen: enter a directory, then choose a database to view.
//!
//! Scanning the directory is outside work: when the user submits a path the
//! picker leaves the scan pending (`pending_scan`), and the caller hands the
//! outcome back with `finish_scan`.
use vstd::prelude::*;
use vstd::string::*;

use crate::action::{reply_view, Action, ActionView};
use crate::bindings::{help_for_picker_input, help_for_picker_list, Command};
use crate::grid::{clamp, min, max, sat_sub};
use crate::text::{decimal, push_char, push_decimal, trim, trim_spec};

verus! {

/// How many rows one page key jumps in the database list.
pub const PAGE_STEP: i64 = 50;

/// Where the picker is in its flow.
#[derive(Debug, Clone, Copy, PartialEq, Eq, Structural)]
pub enum PickerState {
    /// Waiting for the user to type a directory path.
    DirectoryInput,
    /// Showing the sqlite databases found in the entered directory.
    DatabaseList,
}

/// What `Path::strip_prefix` makes of a path relative to a root (the path
/// itself when the root is not a prefix of it), as displayed text.
pub uninterp spec fn relative_path(path: Seq<char>, root: Seq<char>) -> Seq<char>;

/// The label shown for a found database: its path relative to the scanned
/// directory.
///
/// Trusted: calls `Path::strip_prefix` (falling back to the whole path when
/// the directory is not a prefix of it) and displays the result. The result
/// is named `relative_path`; nothing more about it is stated.
#[verifier::external_body]
fn relative_label(path: &str, root: &str) -> (l: String)
    ensures
        l@ == relative_path(path@, root@),
{
    let full = std::path::Path::new(path);
    full.strip_prefix(root).unwrap_or(full).display().to_string()
}

/// The labels of found databases, relative to the scanned directory.
pub open spec fn labels_for(paths: Seq<Seq<char>>, root: Seq<char>) -> Seq<Seq<char>> {
    paths.map_values(|p: Seq<char>| relative_path(p, root))
}

/// The mathematical model of a picker.
pub struct PickerView {
    pub state: PickerState,
    /// The directory path the user typed.
    pub input: Seq<char>,
    /// Paths of the databases found in the current directory.
    pub results: Seq<Seq<char>>,
    /// Display labels for `results`.
    pub labels: Seq<Seq<char>>,
    /// Index of the highlighted database.
    pub selected: int,
    /// Index of the first row shown in the list.
    pub scroll_offset: int,
    /// Number of rows that fit in the list area.
    pub list_height: int,
    /// Message shown under the input (guidance, errors, or counts).
    pub status: Option<Seq<char>>,
    /// The directory whose scan the picker waits for, if any.
    pub pending_scan: Option<Seq<char>>,
}

// ---------------------------------------------------------------------------
// Specification
// ---------------------------------------------------------------------------

pub open spec fn picker_inv(p: PickerView) -> bool {
    &&& p.labels.len() == p.results.len()
    &&& 0 <= p.selected
    &&& (p.results.len() == 0 ==> p.selected == 0)
    &&& (p.results.len() > 0 ==> p.selected < p.results.len())
    &&& 0 <= p.scroll_offset
    &&& 0 <= p.list_height
    &&& (p.state == PickerState::DatabaseList ==> p.results.len() > 0)
}

pub open spec fn initial_picker() -> PickerView {
    PickerView {
        state: PickerState::DirectoryInput,
        input: seq![],
        results: seq![],
        labels: seq![],
        selected: 0,
        scroll_offset: 0,
        list_height: 10,
        status: Some("Paste a directory path, then press Enter."@),
        pending_scan: None,
    }
}

/// Move the list so the highlight stays inside the visible area, scrolling
/// only when the highlight would leave it.
pub open spec fn keep_selected_visible(p: PickerView) -> PickerView {
    if p.results.len() == 0 {
        PickerView { scroll_offset: 0, ..p }
    } else {
        let h = max(p.list_height, 1);
        let max_offset = sat_sub(p.results.len() as int, h);
        let off = if p.selected < p.scroll_offset {
            p.selected
        } else if p.selected >= p.scroll_offset + h {
            p.selected + 1 - h
        } else {
            p.scroll_offset
        };
        PickerView { scroll_offset: clamp(off, 0, max_offset), ..p }
    }
}

pub open spec fn move_selection(p: PickerView, delta: int) -> PickerView {
    if p.results.len() == 0 {
        p
    } else {
        keep_selected_visible(
            PickerView { selected: clamp(p.selected + delta, 0, p.results.len() - 1), ..p },
        )
    }
}

/// Jump the selection by a page and anchor it to the top or bottom row.
pub open spec fn jump_selection(p: PickerView, delta: int, anchor_top: bool) -> PickerView {
    if p.results.len() == 0 {
        p
    } else {
        let len = p.results.len() as int;
        let sel = clamp(p.selected + delta, 0, len - 1);
        let h = max(p.list_height, 1);
        let max_offset = sat_sub(len, h);
        PickerView {
            selected: sel,
            scroll_offset: if anchor_top {
                min(sel, max_offset)
            } else {
                min(sat_sub(sel + 1, h), max_offset)
            },
            ..p
        }
    }
}

/// Submitting the typed path: an empty path is refused, any other is scanned.
pub open spec fn submit_directory(p: PickerView) -> PickerView {
    let dir = trim_spec(p.input);
    if dir.len() == 0 {
        PickerView { status: Some("Enter a directory path first."@), ..p }
    } else {
        PickerView { pending_scan: Some(dir), ..p }
    }
}

pub open spec fn picker_step(p: PickerView, command: Command) -> PickerView {
    match command {
        Command::Type(c) => PickerView { input: p.input.push(c), status: None, ..p },
        Command::EraseChar => PickerView {
            input: if p.input.len() > 0 {
                p.input.drop_last()
            } else {
                p.input
            },
            status: None,
            ..p
        },
        Command::Open => if p.state == PickerState::DirectoryInput {
            submit_directory(p)
        } else {
            p
        },
        Command::Back => if p.state == PickerState::DatabaseList {
            PickerView { state: PickerState::DirectoryInput, status: None, ..p }
        } else {
            p
        },
        Command::MoveUp => move_selection(p, -1),
        Command::MoveDown => move_selection(p, 1),
        Command::PageUp => jump_selection(p, -(PAGE_STEP as int), true),
        Command::PageDown => jump_selection(p, PAGE_STEP as int, false),
        _ => p,
    }
}

pub open spec fn picker_reply(p: PickerView, command: Command) -> Option<ActionView> {
    match command {
        Command::Open => if p.state == PickerState::DatabaseList && 0 <= p.selected
            < p.results.len() {
            Some(ActionView::PickDatabase(p.results[p.selected]))
        } else {
            None
        },
        Command::Quit => Some(ActionView::Quit),
        _ => None,
    }
}

/// The outcome of a scan, as the paths found, or an error message.
pub open spec fn scan_outcome_view(outcome: Result<Vec<String>, String>) -> Result<
    Seq<Seq<char>>,
    Seq<char>,
> {
    match outcome {
        Ok(found) => Ok(found@.map_values(|p: String| p@)),
        Err(msg) => Err(msg@),
    }
}

/// The picker once the pending scan of `dir` has come back.
pub open spec fn finish_scan_spec(
    p: PickerView,
    outcome: Result<Seq<Seq<char>>, Seq<char>>,
) -> PickerView {
    match p.pending_scan {
        None => p,
        Some(dir) => match outcome {
            Ok(paths) => if paths.len() == 0 {
                PickerView {
                    status: Some("No sqlite databases found in "@ + dir + "."@),
                    pending_scan: None,
                    ..p
                }
            } else {
                PickerView {
                    results: paths,
                    labels: labels_for(paths, dir),
                    selected: 0,
                    scroll_offset: 0,
                    state: PickerState::DatabaseList,
                    status: None,
                    pending_scan: None,
                    ..p
                }
            },
            Err(msg) => PickerView { status: Some(msg), pending_scan: None, ..p },
        },
    }
}

// ---------------------------------------------------------------------------
// Laws
// ---------------------------------------------------------------------------

/// Typing a character and erasing it leaves the typed path as it was.
pub proof fn law_type_then_erase(p: PickerView, c: char)
    ensures
        picker_step(picker_step(p, Command::Type(c)), Command::EraseChar).input == p.input,
{
    assert(p.input.push(c).drop_last() =~= p.input);
}

/// Every command keeps the picker's invariant: the highlight stays on a
/// database of the list, and the list screen always has one.
pub proof fn law_step_keeps_invariant(p: PickerView, command: Command)
    requires
        picker_inv(p),
    ensures
        picker_inv(picker_step(p, command)),
{
}

/// Whatever a scan brings back keeps the invariant; a scan that finds
/// databases shows them with the first one highlighted.
pub proof fn law_scan_keeps_invariant(
    p: PickerView,
    outcome: Result<Seq<Seq<char>>, Seq<char>>,
)
    requires
        picker_inv(p),
    ensures
        picker_inv(finish_scan_spec(p, outcome)),
        p.pending_scan is Some && (outcome matches Ok(paths) && paths.len() > 0) ==> {
            let q = finish_scan_spec(p, outcome);
            q.state == PickerState::DatabaseList && q.selected == 0
        },
{
}

/// A scan that finds databases lists exactly them, highlights the first one
/// and shows the list from its top, so the highlight is in view whatever the
/// list showed before.
pub proof fn law_scan_shows_first_database(p: PickerView, paths: Seq<Seq<char>>)
    requires
        p.pending_scan is Some,
        paths.len() > 0,
    ensures
        ({
            let q = finish_scan_spec(p, Ok(paths));
            let height = if q.list_height >= 1 {
                q.list_height
            } else {
                1
            };
            &&& q.results == paths
            &&& q.selected == 0
            &&& q.scroll_offset == 0
            &&& q.scroll_offset <= q.selected < q.scroll_offset + height
            &&& q.state == PickerState::DatabaseList
            &&& q.input == p.input
            &&& q.pending_scan is None
        }),
{
}

/// On the list screen, opening always picks the highlighted database.
pub proof fn law_open_picks_highlighted(p: PickerView)
    requires
        picker_inv(p),
        p.state == PickerState::DatabaseList,
    ensures
        picker_reply(p, Command::Open) == Some(ActionView::PickDatabase(p.results[p.selected])),
{
}

/// Moving down one and back up returns to the same database when it is not
/// the last one.
pub proof fn law_down_then_up(p: PickerView)
    requires
        picker_inv(p),
        p.selected + 1 < p.results.len(),
    ensures
        picker_step(picker_step(p, Command::MoveDown), Command::MoveUp).selected == p.selected,
{
}

/// Going back to the directory input keeps the typed path and the results.
pub proof fn law_back_keeps_input(p: PickerView)
    requires
        p.state == PickerState::DatabaseList,
    ensures
        picker_step(p, Command::Back).state == PickerState::DirectoryInput,
        picker_step(p, Command::Back).input == p.input,
        picker_step(p, Command::Back).results == p.results,
{
}

// ---------------------------------------------------------------------------
// The picker
// ---------------------------------------------------------------------------

/// The opening screen: enter a directory, then choose a database to view.
pub struct Picker {
    state: PickerState,
    input: String,
    results: Vec<String>,
    labels: Vec<String>,
    selected: usize,
    scroll_offset: usize,
    list_height: usize,
    status: Option<String>,
    pending_scan: Option<String>,
}

pub open spec fn opt_text(s: Option<String>) -> Option<Seq<char>> {
    match s {
        Some(s) => Some(s@),
        None => None,
    }
}

impl View for Picker {
    type V = PickerView;

    closed spec fn view(&self) -> PickerView {
        PickerView {
            state: self.state,
            input: self.input@,
            results: self.results@.map_values(|s: String| s@),
            labels: self.labels@.map_values(|s: String| s@),
            selected: self.selected as int,
            scroll_offset: self.scroll_offset as int,
            list_height: self.list_height as int,
            status: opt_text(self.status),
            pending_scan: opt_text(self.pending_scan),
        }
    }
}

impl Picker {
    proof fn lemma_view(&self)
        ensures
            self@.results.len() == self.results@.len(),
            self@.labels.len() == self.labels@.len(),
            forall|i: int|
                0 <= i < self.results@.len() ==> #[trigger] self@.results[i] == self.results@[i]@,
    {
    }

    /// Build a fresh picker in the directory input state.
    pub fn new() -> (p: Self)
        ensures
            p@ == initial_picker(),
            picker_inv(p@),
    {
        let p = Picker {
            state: PickerState::DirectoryInput,
            input: String::new(),
            results: Vec::new(),
            labels: Vec::new(),
            selected: 0,
            scroll_offset: 0,
            list_height: 10,
            status: Some(String::from_str("Paste a directory path, then press Enter.")),
            pending_scan: None,
        };
        assert(p@.results =~= Seq::<Seq<char>>::empty());
        assert(p@.labels =~= Seq::<Seq<char>>::empty());
        p
    }

    /// True while the user is editing the directory path.
    pub fn is_typing(&self) -> (b: bool)
        ensures
            b == (self@.state == PickerState::DirectoryInput),
    {
        match self.state {
            PickerState::DirectoryInput => true,
            PickerState::DatabaseList => false,
        }
    }

    /// Help text for the current sub-state, shown in the app footer.
    pub fn footer_help(&self) -> (s: &'static str)
        ensures
            self@.state == PickerState::DirectoryInput ==> s@
                == "type a directory | Backspace: delete | Enter: scan | Esc: exit"@,
            self@.state == PickerState::DatabaseList ==> s@
                == "↑/↓: scroll | PgUp/PgDn: 50 | →: open | ←: change directory | Esc: exit"@,
    {
        match self.state {
            PickerState::DirectoryInput => help_for_picker_input(),
            PickerState::DatabaseList => help_for_picker_list(),
        }
    }

    /// Show a message (for example when opening a database fails).
    pub fn report(&mut self, message: String)
        requires
            picker_inv(old(self)@),
        ensures
            final(self)@ == (PickerView { status: Some(message@), ..old(self)@ }),
            picker_inv(final(self)@),
    {
        self.status = Some(message);
    }

    /// Handle one command. Returns an action only when the command leaves this
    /// screen. Submitting a directory leaves its scan pending.
    pub fn handle(&mut self, command: Command) -> (reply: Option<Action>)
        requires
            picker_inv(old(self)@),
            old(self)@.pending_scan is None,
        ensures
            final(self)@ == picker_step(old(self)@, command),
            picker_inv(final(self)@),
            reply_view(reply) == picker_reply(old(self)@, command),
    {
        proof {
            self.lemma_view();
        }
        match command {
            Command::Type(ch) => {
                push_char(&mut self.input, ch);
                self.status = None;
                None
            },
            Command::EraseChar => {
                let n = self.input.as_str().unicode_len();
                if n > 0 {
                    let shorter = self.input.as_str().substring_char(0, n - 1).to_owned();
                    assert(shorter@ =~= self.input@.drop_last());
                    self.input = shorter;
                }
                self.status = None;
                None
            },
            Command::Open => match self.state {
                PickerState::DirectoryInput => {
                    self.submit_directory();
                    None
                },
                PickerState::DatabaseList => {
                    if self.selected < self.results.len() {
                        Some(Action::PickDatabase(self.results[self.selected].clone()))
                    } else {
                        None
                    }
                },
            },
            Command::Back => match self.state {
                PickerState::DatabaseList => {
                    self.state = PickerState::DirectoryInput;
                    self.status = None;
                    None
                },
                PickerState::DirectoryInput => None,
            },
            Command::MoveUp => {
                self.move_selection(-1);
                None
            },
            Command::MoveDown => {
                self.move_selection(1);
                None
            },
            Command::SortColumnLeft | Command::SortColumnRight | Command::OrderToggle => None,
            Command::PageUp => {
                self.jump_selection(-PAGE_STEP, true);
                None
            },
            Command::PageDown => {
                self.jump_selection(PAGE_STEP, false);
                None
            },
            Command::Quit => Some(Action::Quit),
        }
    }

    /// Refuse an empty path, else leave the scan of the trimmed path pending.
    fn submit_directory(&mut self)
        requires
            picker_inv(old(self)@),
        ensures
            final(self)@ == submit_directory(old(self)@),
    {
        let dir = trim(self.input.as_str());
        if dir.as_str().unicode_len() == 0 {
            self.status = Some(String::from_str("Enter a directory path first."));
        } else {
            self.pending_scan = Some(dir);
        }
    }

    /// The directory whose scan the picker waits for, if any.
    pub fn pending_scan(&self) -> (d: Option<String>)
        ensures
            opt_text(d) == self@.pending_scan,
    {
        match &self.pending_scan {
            Some(dir) => Some(dir.clone()),
            None => None,
        }
    }

    /// Hand over the outcome of the pending scan: the paths of the databases
    /// found, or the error message. Each database is labelled with its path
    /// relative to the scanned directory. Without a pending scan the outcome
    /// is dropped.
    pub fn finish_scan(&mut self, outcome: Result<Vec<String>, String>)
        requires
            picker_inv(old(self)@),
        ensures
            final(self)@ == finish_scan_spec(old(self)@, scan_outcome_view(outcome)),
            picker_inv(final(self)@),
    {
        let dir = match &self.pending_scan {
            None => {
                return ;
            },
            Some(d) => d.clone(),
        };
        self.pending_scan = None;
        match outcome {
            Ok(found) => {
                if found.len() == 0 {
                    let mut message = String::from_str("No sqlite databases found in ");
                    message.append(dir.as_str());
                    message.append(".");
                    self.status = Some(message);
                } else {
                    let n = found.len();
                    let mut paths: Vec<String> = Vec::new();
                    let mut labels: Vec<String> = Vec::new();
                    let mut i: usize = 0;
                    while i < n
                        invariant
                            i <= n,
                            n == found@.len(),
                            paths@.len() == i,
                            labels@.len() == i,
                            forall|j: int| 0 <= j < i ==> #[trigger] paths@[j]@ == found@[j]@,
                            forall|j: int|
                                0 <= j < i ==> #[trigger] labels@[j]@ == relative_path(
                                    found@[j]@,
                                    dir@,
                                ),
                        decreases n - i,
                    {
                        paths.push(found[i].clone());
                        labels.push(relative_label(found[i].as_str(), dir.as_str()));
                        i = i + 1;
                    }
                    let ghost found_view = found@.map_values(|p: String| p@);
                    assert(paths@.map_values(|s: String| s@) =~= found_view);
                    assert(labels@.map_values(|s: String| s@) =~= labels_for(found_view, dir@));
                    self.results = paths;
                    self.labels = labels;
                    self.selected = 0;
                    self.scroll_offset = 0;
                    self.state = PickerState::DatabaseList;
                    self.status = None;
                }
            },
            Err(message) => {
                self.status = Some(message);
            },
        }
    }

    /// `selected + delta`, within `[0, len - 1]`.
    fn clamped(selected: usize, delta: i64, len: usize) -> (r: usize)
        requires
            len > 0,
            selected < len,
            -PAGE_STEP <= delta <= PAGE_STEP,
        ensures
            r as int == clamp(selected + delta, 0, len - 1),
    {
        if delta < 0 {
            let back = (-delta) as usize;
            if selected >= back {
                selected - back
            } else {
                0
            }
        } else {
            let ahead = delta as usize;
            if len - 1 - selected <= ahead {
                len - 1
            } else {
                selected + ahead
            }
        }
    }

    fn move_selection(&mut self, delta: i64)
        requires
            picker_inv(old(self)@),
            delta == -1 || delta == 1,
        ensures
            final(self)@ == move_selection(old(self)@, delta as int),
            picker_inv(final(self)@),
    {
        proof {
            self.lemma_view();
        }
        if self.results.len() == 0 {
            return ;
        }
        self.selected = Self::clamped(self.selected, delta, self.results.len());
        self.keep_selected_visible();
    }

    /// Jump the selection by a page and anchor it to the top or bottom row.
    fn jump_selection(&mut self, delta: i64, anchor_top: bool)
        requires
            picker_inv(old(self)@),
            -PAGE_STEP <= delta <= PAGE_STEP,
        ensures
            final(self)@ == jump_selection(old(self)@, delta as int, anchor_top),
            picker_inv(final(self)@),
    {
        proof {
            self.lemma_view();
        }
        let len = self.results.len();
        if len == 0 {
            return ;
        }
        self.selected = Self::clamped(self.selected, delta, len);
        let height = if self.list_height < 1 {
            1
        } else {
            self.list_height
        };
        let max_offset = if len >= height {
            len - height
        } else {
            0
        };
        self.scroll_offset = if anchor_top {
            if self.selected < max_offset {
                self.selected
            } else {
                max_offset
            }
        } else {
            let above = if self.selected + 1 >= height {
                self.selected + 1 - height
            } else {
                0
            };
            if above < max_offset {
                above
            } else {
                max_offset
            }
        };
    }

    /// Move the list so the highlight stays inside the visible area.
    fn keep_selected_visible(&mut self)
        requires
            picker_inv(old(self)@),
        ensures
            final(self)@ == keep_selected_visible(old(self)@),
            picker_inv(final(self)@),
    {
        proof {
            self.lemma_view();
        }
        let len = self.results.len();
        if len == 0 {
            self.scroll_offset = 0;
            return ;
        }
        let height = if self.list_height < 1 {
            1
        } else {
            self.list_height
        };
        let max_offset = if len >= height {
            len - height
        } else {
            0
        };
        if self.selected < self.scroll_offset {
            self.scroll_offset = self.selected;
        } else if self.selected - self.scroll_offset >= height {
            self.scroll_offset = self.selected + 1 - height;
        }
        if self.scroll_offset > max_offset {
            self.scroll_offset = max_offset;
        }
    }

    /// The typed directory path.
    pub fn input(&self) -> (s: &str)
        ensures
            s@ == self@.input,
    {
        self.input.as_str()
    }

    /// The message shown under the input, if any.
    pub fn status(&self) -> (s: Option<String>)
        ensures
            opt_text(s) == self@.status,
    {
        match &self.status {
            Some(m) => Some(m.clone()),
            None => None,
        }
    }

    /// The labels of the databases found.
    pub fn labels(&self) -> (l: &Vec<String>)
        ensures
            l@.map_values(|s: String| s@) == self@.labels,
    {
        &self.labels
    }

    /// The number of databases found.
    pub fn result_count(&self) -> (n: usize)
        ensures
            n == self@.results.len(),
    {
        proof {
            self.lemma_view();
        }
        self.results.len()
    }

    /// The title of the picker's frame.
    pub fn title(&self) -> (t: String)
        ensures
            self@.state == PickerState::DatabaseList ==> t@ == " Databases in "@ + self@.input
                + " "@,
            self@.state == PickerState::DirectoryInput ==> t@ == " Open SQLite database "@,
    {
        match self.state {
            PickerState::DatabaseList => {
                let mut t = String::from_str(" Databases in ");
                t.append(self.input.as_str());
                t.append(" ");
                t
            },
            PickerState::DirectoryInput => String::from_str(" Open SQLite database "),
        }
    }

    /// The title of the database list: how many were found.
    pub fn list_title(&self) -> (t: String)
        ensures
            t@ == " "@ + decimal(self@.results.len()) + " database(s) found "@,
    {
        proof {
            self.lemma_view();
        }
        let mut t = String::from_str(" ");
        push_decimal(&mut t, self.results.len() as u64);
        t.append(" database(s) found ");
        t
    }

    /// Fit the list to an area of `area_height` rows (inside its title line
    /// and border): it shows that many rows, at least one.
    pub fn fit_list(&mut self, area_height: u16)
        requires
            picker_inv(old(self)@),
        ensures
            final(self)@ == (PickerView {
                list_height: max(sat_sub(area_height as int, 2), 1),
                ..old(self)@
            }),
            picker_inv(final(self)@),
    {
        let inner = if area_height >= 2 {
            (area_height - 2) as usize
        } else {
            0
        };
        self.list_height = if inner < 1 {
            1
        } else {
            inner
        };
    }

    /// The labels a list area of `area_height` rows shows, as a start index
    /// and a count, and the highlight's row within them, if it is not above.
    pub fn list_window(&self, area_height: u16) -> (w: (usize, usize, Option<usize>))
        requires
            picker_inv(self@),
        ensures
            w.0 as int == min(self@.scroll_offset, self@.results.len() as int),
            w.1 as int == min(
                sat_sub(area_height as int, 2),
                self@.results.len() - min(self@.scroll_offset, self@.results.len() as int),
            ),
            w.2 matches Some(i) ==> self@.selected >= w.0 && i == self@.selected - w.0,
            w.2 is None ==> self@.selected < w.0,
    {
        proof {
            self.lemma_view();
        }
        let len = self.results.len();
        let start = if self.scroll_offset < len {
            self.scroll_offset
        } else {
            len
        };
        let inner = if area_height >= 2 {
            (area_height - 2) as usize
        } else {
            0
        };
        let take = if inner < len - start {
            inner
        } else {
            len - start
        };
        let local = if self.selected >= start {
            Some(self.selected - start)
        } else {
            None
        };
        (start, take, local)
    }
}

} // verus!
