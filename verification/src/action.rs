//! What a screen asks the application shell to do.
use vstd::prelude::*;

verus! {

/// What a screen asks the application shell to do.
///
/// Screens handle their own keys and mutate their own state. When a key crosses
/// a screen boundary, the screen returns one of these actions instead of acting
/// on the whole application.
#[derive(Debug, Clone)]
pub enum Action {
    /// Close the application.
    Quit,
    /// Open the named table into the row grid.
    OpenTable(String),
    /// Open the chosen database file into the browse screens.
    PickDatabase(String),
    /// Return from the row grid to the table list.
    BackToList,
    /// Return from the table list to the directory picker.
    BackToPicker,
}

/// The mathematical value of an [`Action`].
pub enum ActionView {
    Quit,
    OpenTable(Seq<char>),
    PickDatabase(Seq<char>),
    BackToList,
    BackToPicker,
}

impl View for Action {
    type V = ActionView;

    open spec fn view(&self) -> ActionView {
        match self {
            Action::Quit => ActionView::Quit,
            Action::OpenTable(t) => ActionView::OpenTable(t@),
            Action::PickDatabase(p) => ActionView::PickDatabase(p@),
            Action::BackToList => ActionView::BackToList,
            Action::BackToPicker => ActionView::BackToPicker,
        }
    }
}

/// The mathematical value of an optional [`Action`].
pub open spec fn reply_view(a: Option<Action>) -> Option<ActionView> {
    match a {
        Some(a) => Some(a@),
        None => None,
    }
}

} // verus!
