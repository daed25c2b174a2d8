use r_sqlite::bindings::{
    command_for_key, command_for_text_key, help_for_grid, help_for_list, help_for_picker_input,
    help_for_picker_list, Command, KeyCode, KeyModifiers,
};

fn plain() -> KeyModifiers {
    KeyModifiers { shift: false, control: false, alt: false }
}

fn shifted() -> KeyModifiers {
    KeyModifiers { shift: true, control: false, alt: false }
}

#[test]
fn esc_quits_in_both_mappings() {
    assert_eq!(command_for_key(KeyCode::Esc, plain()), Some(Command::Quit));
    assert_eq!(command_for_key(KeyCode::Esc, shifted()), Some(Command::Quit));
    assert_eq!(command_for_text_key(KeyCode::Esc, plain()), Some(Command::Quit));
}

#[test]
fn arrows_move_and_confirm() {
    assert_eq!(command_for_key(KeyCode::Up, plain()), Some(Command::MoveUp));
    assert_eq!(command_for_key(KeyCode::Down, shifted()), Some(Command::MoveDown));
    assert_eq!(command_for_key(KeyCode::Right, plain()), Some(Command::Open));
    assert_eq!(command_for_key(KeyCode::Left, plain()), Some(Command::Back));
}

#[test]
fn shifted_arrows_pick_sort_column() {
    assert_eq!(command_for_key(KeyCode::Right, shifted()), Some(Command::SortColumnRight));
    assert_eq!(command_for_key(KeyCode::Left, shifted()), Some(Command::SortColumnLeft));
}

#[test]
fn space_toggles_order_only_unshifted() {
    assert_eq!(command_for_key(KeyCode::Char(' '), plain()), Some(Command::OrderToggle));
    assert_eq!(command_for_key(KeyCode::Char(' '), shifted()), None);
    assert_eq!(command_for_key(KeyCode::Char('q'), plain()), None);
}

#[test]
fn page_keys_with_or_without_shift() {
    assert_eq!(command_for_key(KeyCode::PageUp, plain()), Some(Command::PageUp));
    assert_eq!(command_for_key(KeyCode::PageUp, shifted()), Some(Command::PageUp));
    assert_eq!(command_for_key(KeyCode::PageDown, shifted()), Some(Command::PageDown));
}

#[test]
fn enter_and_backspace_unmapped_while_browsing() {
    assert_eq!(command_for_key(KeyCode::Enter, plain()), None);
    assert_eq!(command_for_key(KeyCode::Backspace, plain()), None);
    assert_eq!(command_for_key(KeyCode::Other, plain()), None);
}

#[test]
fn text_mapping_types_printable_characters() {
    assert_eq!(command_for_text_key(KeyCode::Char('x'), plain()), Some(Command::Type('x')));
    assert_eq!(command_for_text_key(KeyCode::Char('/'), shifted()), Some(Command::Type('/')));
    assert_eq!(command_for_text_key(KeyCode::Char('é'), plain()), Some(Command::Type('é')));
    assert_eq!(command_for_text_key(KeyCode::Char(' '), plain()), Some(Command::Type(' ')));
}

#[test]
fn text_mapping_drops_control_characters() {
    assert_eq!(command_for_text_key(KeyCode::Char('\u{7}'), plain()), None);
    assert_eq!(command_for_text_key(KeyCode::Char('\u{7f}'), plain()), None);
    assert_eq!(command_for_text_key(KeyCode::Char('\u{9f}'), plain()), None);
    assert_eq!(command_for_text_key(KeyCode::Char('\u{a0}'), plain()), Some(Command::Type('\u{a0}')));
}

#[test]
fn text_mapping_editing_keys() {
    assert_eq!(command_for_text_key(KeyCode::Backspace, plain()), Some(Command::EraseChar));
    assert_eq!(command_for_text_key(KeyCode::Enter, plain()), Some(Command::Open));
    assert_eq!(command_for_text_key(KeyCode::Up, plain()), None);
    assert_eq!(command_for_text_key(KeyCode::Left, plain()), None);
}

#[test]
fn control_char_agrees_with_std() {
    for u in 0u32..0x3100 {
        if let Some(c) = char::from_u32(u) {
            assert_eq!(r_sqlite::text::control_char(c), c.is_control(), "{u:x}");
            assert_eq!(r_sqlite::text::white_space(c), c.is_whitespace(), "{u:x}");
        }
    }
}

#[test]
fn help_texts() {
    assert_eq!(help_for_list(), "↑/↓: scroll | →: open | ←: change database | Esc: exit");
    assert_eq!(
        help_for_grid(),
        "↑/↓: scroll | PgUp/PgDn: 50 rows | Shift+←/→: sort column | Space: sort direction | ←: back | Esc: exit"
    );
    assert_eq!(help_for_picker_input(), "type a directory | Backspace: delete | Enter: scan | Esc: exit");
    assert_eq!(
        help_for_picker_list(),
        "↑/↓: scroll | PgUp/PgDn: 50 | →: open | ←: change directory | Esc: exit"
    );
}
