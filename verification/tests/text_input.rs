use pokemon_arena::keys::{KeyCode, KeyEvent, KeyEventKind, KeyModifiers};
use pokemon_arena::ui_tooling::text_input::{InputMode, TextInputWidgetState};

fn typed(text: &str) -> TextInputWidgetState {
    let mut state = TextInputWidgetState::new();
    for c in text.chars() {
        state.enter_char(c);
    }
    state
}

#[test]
fn new_field_is_empty_and_in_menu_mode() {
    let state = TextInputWidgetState::new();
    assert_eq!(state.input, "");
    assert_eq!(state.cursor, 0);
    assert_eq!(state.mode, InputMode::Normal);
}

#[test]
fn characters_are_entered_at_the_cursor() {
    let mut state = typed("ac");
    assert_eq!(state.input, "ac");
    assert_eq!(state.cursor, 2);
    state.move_cursor_left();
    assert_eq!(state.cursor, 1);
    state.enter_char('b');
    assert_eq!(state.input, "abc");
    assert_eq!(state.cursor, 2);
}

#[test]
fn cursor_stops_at_both_ends() {
    let mut state = typed("ab");
    state.move_cursor_right();
    assert_eq!(state.cursor, 2);
    state.move_cursor_left();
    state.move_cursor_left();
    state.move_cursor_left();
    assert_eq!(state.cursor, 0);
}

#[test]
fn cursor_behind_the_end_counts_as_at_the_end() {
    let mut state = typed("ab");
    state.cursor = 9;
    state.enter_char('c');
    assert_eq!(state.input, "abc");
    assert_eq!(state.cursor, 3);
    state.cursor = usize::MAX;
    state.move_cursor_right();
    assert_eq!(state.cursor, 3);
    state.cursor = 7;
    state.move_cursor_left();
    assert_eq!(state.cursor, 3);
}

#[test]
fn delete_removes_the_character_before_the_cursor() {
    let mut state = typed("abc");
    state.move_cursor_left();
    state.delete_char();
    assert_eq!(state.input, "ac");
    assert_eq!(state.cursor, 1);
    state.delete_char();
    assert_eq!(state.input, "c");
    assert_eq!(state.cursor, 0);
    state.delete_char();
    assert_eq!(state.input, "c");
    assert_eq!(state.cursor, 0);
}

#[test]
fn delete_with_the_cursor_far_behind_the_end_changes_no_text() {
    let mut state = typed("abc");
    state.cursor = 10;
    state.delete_char();
    assert_eq!(state.input, "abc");
    assert_eq!(state.cursor, 3);
    state.cursor = 4;
    state.delete_char();
    assert_eq!(state.input, "abc");
    assert_eq!(state.cursor, 3);
}

#[test]
fn byte_index_counts_bytes_not_characters() {
    let mut state = typed("aé€z");
    assert_eq!(state.cursor, 4);
    assert_eq!(state.byte_index(), 7);
    state.cursor = 0;
    assert_eq!(state.byte_index(), 0);
    state.cursor = 1;
    assert_eq!(state.byte_index(), 1);
    state.cursor = 2;
    assert_eq!(state.byte_index(), 3);
    state.cursor = 3;
    assert_eq!(state.byte_index(), 6);
    state.cursor = 50;
    assert_eq!(state.byte_index(), 7);
}

#[test]
fn characters_of_several_bytes_are_edited_whole() {
    let mut state = typed("€é");
    state.move_cursor_left();
    state.enter_char('ß');
    assert_eq!(state.input, "€ßé");
    state.delete_char();
    assert_eq!(state.input, "€é");
    assert_eq!(state.cursor, 1);
}

#[test]
fn reset_cursor_and_set_mode_and_clear() {
    let mut state = typed("abc");
    state.reset_cursor();
    assert_eq!(state.cursor, 0);
    assert_eq!(state.input, "abc");
    state.set_mode(InputMode::Editing);
    assert_eq!(state.mode, InputMode::Editing);
    state.cursor = 2;
    state.clear();
    assert_eq!(state.input, "");
    assert_eq!(state.cursor, 0);
    assert_eq!(state.mode, InputMode::Editing);
}

#[test]
fn keys_are_ignored_in_menu_mode() {
    let mut state = typed("ab");
    let submitted = state.handle_key(&KeyEvent::plain(KeyCode::Char('x')));
    assert!(!submitted);
    assert!(!state.handle_key(&KeyEvent::plain(KeyCode::Enter)));
    assert_eq!(state.input, "ab");
    assert_eq!(state.cursor, 2);
}

#[test]
fn keys_edit_the_text_while_editing() {
    let mut state = typed("ab");
    state.set_mode(InputMode::Editing);
    assert!(!state.handle_key(&KeyEvent::plain(KeyCode::Char('c'))));
    assert_eq!(state.input, "abc");
    assert!(!state.handle_key(&KeyEvent::plain(KeyCode::Left)));
    assert_eq!(state.cursor, 2);
    assert!(!state.handle_key(&KeyEvent::plain(KeyCode::Backspace)));
    assert_eq!(state.input, "ac");
    assert!(!state.handle_key(&KeyEvent::plain(KeyCode::Right)));
    assert_eq!(state.cursor, 2);
    assert!(!state.handle_key(&KeyEvent::plain(KeyCode::Tab)));
    assert!(!state.handle_key(&KeyEvent::plain(KeyCode::Esc)));
    assert_eq!(state.input, "ac");
    assert_eq!(state.mode, InputMode::Editing);
    assert!(state.handle_key(&KeyEvent::plain(KeyCode::Enter)));
    assert_eq!(state.input, "ac");
}

#[test]
fn only_presses_reach_the_text() {
    let mut state = typed("");
    state.set_mode(InputMode::Editing);
    let release = KeyEvent {
        code: KeyCode::Char('x'),
        modifiers: KeyModifiers::empty(),
        kind: KeyEventKind::Release,
    };
    assert!(!state.handle_key(&release));
    assert_eq!(state.input, "");
    let repeat_enter = KeyEvent {
        code: KeyCode::Enter,
        modifiers: KeyModifiers::empty(),
        kind: KeyEventKind::Repeat,
    };
    assert!(!state.handle_key(&repeat_enter));
}

#[test]
fn the_cursor_is_shown_one_column_inside_the_frame() {
    let mut state = typed("abc");
    assert_eq!(state.cursor_column(0), 4);
    assert_eq!(state.cursor_column(10), 14);
    state.cursor = 0;
    assert_eq!(state.cursor_column(10), 11);
    assert_eq!(state.cursor_column(u16::MAX), u16::MAX);
    state.cursor = 65534;
    assert_eq!(state.cursor_column(0), 65535);
    state.cursor = 65535;
    assert_eq!(state.cursor_column(0), 65535);
    state.cursor = usize::MAX;
    assert_eq!(state.cursor_column(3), 65535);
    state.cursor = 5;
    assert_eq!(state.cursor_column(65529), 65535);
    assert_eq!(state.cursor_column(65530), 65535);
}
