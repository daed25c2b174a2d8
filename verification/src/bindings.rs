//! The keyboard vocabulary: keys, the commands they map to, and the help texts.
//! This module is the one source of truth for keyboard commands.
use vstd::prelude::*;

use crate::text::{control_char, is_control_char};

verus! {

/// A key as the screens see it. Keys that no mapping uses arrive as `Other`.
#[derive(Debug, Clone, Copy, PartialEq, Eq, Structural)]
pub enum KeyCode {
    Backspace,
    Enter,
    Left,
    Right,
    Up,
    Down,
    PageUp,
    PageDown,
    Esc,
    Char(char),
    Other,
}

/// The modifier keys held with a key.
#[derive(Debug, Clone, Copy, PartialEq, Eq, Structural)]
pub struct KeyModifiers {
    pub shift: bool,
    pub control: bool,
    pub alt: bool,
}

/// The single vocabulary of user actions. Keys map to these, and screens act
/// on them.
#[derive(Debug, Clone, Copy, PartialEq, Eq, Structural)]
pub enum Command {
    /// Move the highlight up (or scroll up).
    MoveUp,
    /// Move the highlight down (or scroll down).
    MoveDown,
    /// Open the selected item.
    Open,
    /// Go back to the previous screen.
    Back,
    /// Insert one typed character (text entry only).
    Type(char),
    /// Delete the last typed character (text entry only).
    EraseChar,
    /// Pick the previous column as the sort key.
    SortColumnLeft,
    /// Pick the next column as the sort key.
    SortColumnRight,
    /// Toggle the sort direction on the chosen column.
    OrderToggle,
    /// Jump 50 rows up.
    PageUp,
    /// Jump 50 rows down.
    PageDown,
    /// Exit the application.
    Quit,
}

/// The command of a key in the browse screens.
pub open spec fn browse_command(code: KeyCode, mods: KeyModifiers) -> Option<Command> {
    if code == KeyCode::Esc {
        Some(Command::Quit)
    } else {
        match code {
            KeyCode::Up => Some(Command::MoveUp),
            KeyCode::Down => Some(Command::MoveDown),
            KeyCode::Right => if mods.shift {
                Some(Command::SortColumnRight)
            } else {
                Some(Command::Open)
            },
            KeyCode::Left => if mods.shift {
                Some(Command::SortColumnLeft)
            } else {
                Some(Command::Back)
            },
            KeyCode::Char(c) => if c == ' ' && !mods.shift {
                Some(Command::OrderToggle)
            } else {
                None
            },
            KeyCode::PageUp => Some(Command::PageUp),
            KeyCode::PageDown => Some(Command::PageDown),
            _ => None,
        }
    }
}

/// The command of a key while free text is being typed.
pub open spec fn text_command(code: KeyCode) -> Option<Command> {
    match code {
        KeyCode::Esc => Some(Command::Quit),
        KeyCode::Char(c) => if !is_control_char(c) {
            Some(Command::Type(c))
        } else {
            None
        },
        KeyCode::Backspace => Some(Command::EraseChar),
        KeyCode::Enter => Some(Command::Open),
        _ => None,
    }
}

/// Map a key to a [`Command`]. Keys not listed do nothing.
///
/// `Esc` is the single exit key. Plain arrows move/scroll and confirm. Holding
/// Shift with Left/Right picks the sort column. `Space` toggles the sort
/// direction on the chosen column. PgUp/PgDn (with or without Shift) jump 50
/// rows. `Enter` is left unmapped here: it is only used to submit the
/// directory path while typing.
pub fn command_for_key(code: KeyCode, mods: KeyModifiers) -> (c: Option<Command>)
    ensures
        c == browse_command(code, mods),
{
    if code == KeyCode::Esc {
        return Some(Command::Quit);
    }
    let shifted = mods.shift;
    match code {
        KeyCode::Up => Some(Command::MoveUp),
        KeyCode::Down => Some(Command::MoveDown),
        KeyCode::Right => if shifted {
            Some(Command::SortColumnRight)
        } else {
            Some(Command::Open)
        },
        KeyCode::Left => if shifted {
            Some(Command::SortColumnLeft)
        } else {
            Some(Command::Back)
        },
        KeyCode::Char(ch) => if ch == ' ' && !shifted {
            Some(Command::OrderToggle)
        } else {
            None
        },
        KeyCode::PageUp => Some(Command::PageUp),
        KeyCode::PageDown => Some(Command::PageDown),
        _ => None,
    }
}

/// Map a key to a [`Command`] while the user is typing free text (for example
/// a directory path). Esc still exits; every character that is not a control
/// character is inserted as text. The modifiers play no part.
pub fn command_for_text_key(code: KeyCode, _mods: KeyModifiers) -> (c: Option<Command>)
    ensures
        c == text_command(code),
{
    match code {
        KeyCode::Esc => Some(Command::Quit),
        KeyCode::Char(ch) => if !control_char(ch) {
            Some(Command::Type(ch))
        } else {
            None
        },
        KeyCode::Backspace => Some(Command::EraseChar),
        KeyCode::Enter => Some(Command::Open),
        _ => None,
    }
}

/// `Esc` is the single exit key: both mappings turn it into `Quit` whatever
/// the modifiers, and no other key becomes `Quit`.
pub proof fn law_esc_is_the_only_exit(code: KeyCode, mods: KeyModifiers)
    ensures
        browse_command(code, mods) == Some(Command::Quit) <==> code == KeyCode::Esc,
        text_command(code) == Some(Command::Quit) <==> code == KeyCode::Esc,
{
}

/// PgUp and PgDn jump a page with or without Shift (or any other modifier),
/// and the plain arrows Up/Down move one row whatever the modifiers.
pub proof fn law_page_keys_ignore_modifiers(mods: KeyModifiers)
    ensures
        browse_command(KeyCode::PageUp, mods) == Some(Command::PageUp),
        browse_command(KeyCode::PageDown, mods) == Some(Command::PageDown),
        browse_command(KeyCode::Up, mods) == Some(Command::MoveUp),
        browse_command(KeyCode::Down, mods) == Some(Command::MoveDown),
{
}

/// While typing, every printable character is inserted as itself.
pub proof fn law_typing_inserts_printable(c: char)
    ensures
        !is_control_char(c) ==> text_command(KeyCode::Char(c)) == Some(Command::Type(c)),
        is_control_char(c) ==> text_command(KeyCode::Char(c)) is None,
{
}

/// Help text for the table list footer.
pub fn help_for_list() -> (s: &'static str)
    ensures
        s@ == "↑/↓: scroll | →: open | ←: change database | Esc: exit"@,
{
    "↑/↓: scroll | →: open | ←: change database | Esc: exit"
}

/// Help text for the row grid footer.
pub fn help_for_grid() -> (s: &'static str)
    ensures
        s@
            == "↑/↓: scroll | PgUp/PgDn: 50 rows | Shift+←/→: sort column | Space: sort direction | ←: back | Esc: exit"@,
{
    "↑/↓: scroll | PgUp/PgDn: 50 rows | Shift+←/→: sort column | Space: sort direction | ←: back | Esc: exit"
}

/// Help text while typing a directory path in the picker.
pub fn help_for_picker_input() -> (s: &'static str)
    ensures
        s@ == "type a directory | Backspace: delete | Enter: scan | Esc: exit"@,
{
    "type a directory | Backspace: delete | Enter: scan | Esc: exit"
}

/// Help text while choosing a database in the picker.
pub fn help_for_picker_list() -> (s: &'static str)
    ensures
        s@ == "↑/↓: scroll | PgUp/PgDn: 50 | →: open | ←: change directory | Esc: exit"@,
{
    "↑/↓: scroll | PgUp/PgDn: 50 | →: open | ←: change directory | Esc: exit"
}

} // verus!
