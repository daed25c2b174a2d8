//! The list of tables and views of the open database.
use vstd::prelude::*;

use crate::action::{reply_view, Action, ActionView};
use crate::bindings::Command;
use crate::grid::clamp;

verus! {

/// The mathematical model of a table list.
pub struct TableListView {
    pub tables: Seq<Seq<char>>,
    pub list_index: int,
}

pub open spec fn table_list_inv(l: TableListView) -> bool {
    &&& 0 <= l.list_index
    &&& (l.tables.len() == 0 ==> l.list_index == 0)
    &&& (l.tables.len() > 0 ==> l.list_index < l.tables.len())
}

pub open spec fn list_move(l: TableListView, delta: int) -> TableListView {
    if l.tables.len() == 0 {
        l
    } else {
        TableListView { list_index: clamp(l.list_index + delta, 0, l.tables.len() - 1), ..l }
    }
}

pub open spec fn list_step(l: TableListView, command: Command) -> TableListView {
    match command {
        Command::MoveUp => list_move(l, -1),
        Command::MoveDown => list_move(l, 1),
        _ => l,
    }
}

pub open spec fn list_reply(l: TableListView, command: Command) -> Option<ActionView> {
    match command {
        Command::Open => if 0 <= l.list_index < l.tables.len() {
            Some(ActionView::OpenTable(l.tables[l.list_index]))
        } else {
            None
        },
        Command::Back => Some(ActionView::BackToPicker),
        Command::Quit => Some(ActionView::Quit),
        _ => None,
    }
}

/// Every command keeps the highlight on a table of the list.
pub proof fn law_step_keeps_invariant(l: TableListView, command: Command)
    requires
        table_list_inv(l),
    ensures
        table_list_inv(list_step(l, command)),
{
}

/// Opening a non-empty list always opens the highlighted table.
pub proof fn law_open_opens_highlighted(l: TableListView)
    requires
        table_list_inv(l),
        l.tables.len() > 0,
    ensures
        list_reply(l, Command::Open) == Some(ActionView::OpenTable(l.tables[l.list_index])),
{
}

/// Moving down one and back up returns to the same table when it is not the
/// last one.
pub proof fn law_down_then_up(l: TableListView)
    requires
        table_list_inv(l),
        l.list_index + 1 < l.tables.len(),
    ensures
        list_step(list_step(l, Command::MoveDown), Command::MoveUp) == l,
{
}

/// The sidebar list of tables and views.
pub struct TableList {
    tables: Vec<String>,
    list_index: usize,
}

impl View for TableList {
    type V = TableListView;

    closed spec fn view(&self) -> TableListView {
        TableListView {
            tables: self.tables@.map_values(|s: String| s@),
            list_index: self.list_index as int,
        }
    }
}

impl TableList {
    proof fn lemma_view(&self)
        ensures
            self@.tables.len() == self.tables@.len(),
            forall|i: int|
                0 <= i < self.tables@.len() ==> #[trigger] self@.tables[i] == self.tables@[i]@,
    {
    }

    /// Build the list from the given table names, highlighting the first.
    pub fn new(tables: Vec<String>) -> (l: Self)
        ensures
            l@ == (TableListView { tables: tables@.map_values(|s: String| s@), list_index: 0 }),
            table_list_inv(l@),
    {
        TableList { tables, list_index: 0 }
    }

    /// Number of items shown in the list.
    pub fn len(&self) -> (n: usize)
        ensures
            n == self@.tables.len(),
    {
        proof {
            self.lemma_view();
        }
        self.tables.len()
    }

    /// Handle one command. Returns an action only when the command leaves the
    /// screen.
    pub fn handle(&mut self, command: Command) -> (reply: Option<Action>)
        requires
            table_list_inv(old(self)@),
        ensures
            final(self)@ == list_step(old(self)@, command),
            table_list_inv(final(self)@),
            reply_view(reply) == list_reply(old(self)@, command),
    {
        proof {
            self.lemma_view();
        }
        match command {
            Command::MoveUp => {
                self.move_selection(-1);
                None
            },
            Command::MoveDown => {
                self.move_selection(1);
                None
            },
            Command::Open => {
                if self.list_index < self.tables.len() {
                    Some(Action::OpenTable(self.tables[self.list_index].clone()))
                } else {
                    None
                }
            },
            Command::Back => Some(Action::BackToPicker),
            Command::Type(_) | Command::EraseChar => None,
            Command::SortColumnLeft
            | Command::SortColumnRight
            | Command::OrderToggle
            | Command::PageUp
            | Command::PageDown => None,
            Command::Quit => Some(Action::Quit),
        }
    }

    fn move_selection(&mut self, delta: i64)
        requires
            table_list_inv(old(self)@),
            delta == -1 || delta == 1,
        ensures
            final(self)@ == list_move(old(self)@, delta as int),
            table_list_inv(final(self)@),
    {
        proof {
            self.lemma_view();
        }
        let n = self.tables.len();
        if n == 0 {
            return ;
        }
        if delta < 0 {
            if self.list_index > 0 {
                self.list_index = self.list_index - 1;
            }
        } else if self.list_index + 1 < n {
            self.list_index = self.list_index + 1;
        }
    }

    /// The table names, in order.
    pub fn tables(&self) -> (t: &Vec<String>)
        ensures
            t@.map_values(|s: String| s@) == self@.tables,
    {
        &self.tables
    }

    /// Index of the highlighted table.
    pub fn selected(&self) -> (i: usize)
        ensures
            i == self@.list_index,
    {
        self.list_index
    }

    /// The title of the list.
    pub fn title(&self) -> (t: &'static str)
        ensures
            self@.tables.len() == 0 ==> t@ == " Tables (no tables or views) "@,
            self@.tables.len() > 0 ==> t@ == " Tables "@,
    {
        proof {
            self.lemma_view();
        }
        if self.tables.len() == 0 {
            " Tables (no tables or views) "
        } else {
            " Tables "
        }
    }
}

} // verus!
