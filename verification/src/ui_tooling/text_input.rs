//! A single-line text field with a cursor.
//!
//! The cursor counts characters, not bytes. Every operation is defined for
//! every state, also for a cursor that lies behind the end of the text: such
//! a cursor behaves like one at the end.

use crate::keys::{KeyCode, KeyEvent, KeyEventKind};
use vstd::prelude::*;
use vstd::string::*;
use vstd::utf8::encode_utf8;

verus! {

/// Whether keys go to the text field or to the surrounding menu.
#[derive(Debug, Clone, Copy, PartialEq, Eq, Structural)]
pub enum InputMode {
    Normal,
    Editing,
}

/// State of a reusable text input widget.
#[derive(Debug, Clone)]
pub struct TextInputWidgetState {
    pub input: String,
    pub cursor: usize,
    pub mode: InputMode,
}

/// The text field as a mathematical value.
pub struct TextInputView {
    pub input: Seq<char>,
    pub cursor: nat,
    pub mode: InputMode,
}

/// `String::push` appends the character to the end of the string.
pub assume_specification[ String::push ](s: &mut String, ch: char)
    ensures
        final(s)@ == old(s)@.push(ch),
;

impl TextInputView {
    /// The empty field in menu mode.
    pub open spec fn empty() -> TextInputView {
        TextInputView { input: Seq::empty(), cursor: 0, mode: InputMode::Normal }
    }

    /// The place in the text where the cursor takes effect.
    pub open spec fn position(self) -> nat {
        if self.cursor <= self.input.len() {
            self.cursor
        } else {
            self.input.len()
        }
    }

    /// The cursor stands inside the text or at its end.
    pub open spec fn wf(self) -> bool {
        self.cursor <= self.input.len()
    }

    /// The field with the cursor put at `target`, or at the end of the text
    /// if `target` lies behind it.
    pub open spec fn with_cursor(self, target: int) -> TextInputView {
        let len = self.input.len() as int;
        let bounded = if target <= 0 {
            0
        } else if target <= len {
            target
        } else {
            len
        };
        TextInputView { cursor: bounded as nat, ..self }
    }

    pub open spec fn move_left(self) -> TextInputView {
        self.with_cursor(self.cursor as int - 1)
    }

    pub open spec fn move_right(self) -> TextInputView {
        self.with_cursor(self.cursor as int + 1)
    }

    /// `c` inserted at the cursor, the cursor moved behind it.
    pub open spec fn enter(self, c: char) -> TextInputView {
        TextInputView { input: self.input.insert(self.position() as int, c), ..self }.move_right()
    }

    /// The character before the cursor removed, the cursor moved onto its
    /// place. With the cursor at the start nothing changes.
    pub open spec fn delete(self) -> TextInputView {
        if self.cursor == 0 {
            self
        } else {
            let len = self.input.len() as int;
            let upto = if self.cursor - 1 <= len {
                self.cursor - 1
            } else {
                len
            };
            TextInputView {
                input: self.input.subrange(0, upto) + self.input.subrange(
                    self.position() as int,
                    len,
                ),
                ..self
            }.move_left()
        }
    }

    pub open spec fn cleared(self) -> TextInputView {
        TextInputView { input: Seq::empty(), cursor: 0, ..self }
    }

    pub open spec fn with_mode(self, mode: InputMode) -> TextInputView {
        TextInputView { mode, ..self }
    }

    /// Whether `key` reaches the text at all: only presses do, and only
    /// while the field is being edited.
    pub open spec fn takes(self, key: KeyEvent) -> bool {
        self.mode == InputMode::Editing && key.kind == KeyEventKind::Press
    }

    /// The field after `key`.
    pub open spec fn after_key(self, key: KeyEvent) -> TextInputView {
        if !self.takes(key) {
            self
        } else {
            match key.code {
                KeyCode::Char(c) => self.enter(c),
                KeyCode::Backspace => self.delete(),
                KeyCode::Left => self.move_left(),
                KeyCode::Right => self.move_right(),
                _ => self,
            }
        }
    }

    /// Whether `key` asks to submit the text: Enter, while editing.
    pub open spec fn submits(self, key: KeyEvent) -> bool {
        self.takes(key) && key.code == KeyCode::Enter
    }
}

impl View for TextInputWidgetState {
    type V = TextInputView;

    open spec fn view(&self) -> TextInputView {
        TextInputView { input: self.input@, cursor: self.cursor as nat, mode: self.mode }
    }
}

impl TextInputWidgetState {
    pub fn new() -> (state: Self)
        ensures
            state@ == TextInputView::empty(),
    {
        Self { input: String::new(), cursor: 0, mode: InputMode::Normal }
    }

    pub fn move_cursor_left(&mut self)
        ensures
            final(self)@ == old(self)@.move_left(),
    {
        let len = self.input.as_str().unicode_len();
        let moved = if self.cursor == 0 {
            0
        } else {
            self.cursor - 1
        };
        self.cursor = if moved <= len {
            moved
        } else {
            len
        };
    }

    pub fn move_cursor_right(&mut self)
        ensures
            final(self)@ == old(self)@.move_right(),
    {
        let len = self.input.as_str().unicode_len();
        self.cursor = if self.cursor < len {
            self.cursor + 1
        } else {
            len
        };
    }

    pub fn enter_char(&mut self, new_char: char)
        ensures
            final(self)@ == old(self)@.enter(new_char),
    {
        let len = self.input.as_str().unicode_len();
        let at = if self.cursor <= len {
            self.cursor
        } else {
            len
        };
        let mut text = String::from_str(self.input.as_str().substring_char(0, at));
        text.push(new_char);
        text.append(self.input.as_str().substring_char(at, len));
        self.input = text;
        self.move_cursor_right();
    }

    pub fn delete_char(&mut self)
        ensures
            final(self)@ == old(self)@.delete(),
    {
        if self.cursor != 0 {
            let len = self.input.as_str().unicode_len();
            let idx = self.cursor - 1;
            let upto = if idx <= len {
                idx
            } else {
                len
            };
            let from = if self.cursor <= len {
                self.cursor
            } else {
                len
            };
            let mut text = String::from_str(self.input.as_str().substring_char(0, upto));
            text.append(self.input.as_str().substring_char(from, len));
            self.input = text;
            self.move_cursor_left();
        }
    }

    /// The offset in bytes, in the text's UTF-8 form, at which the cursor
    /// stands.
    pub fn byte_index(&self) -> (index: usize)
        ensures
            index == encode_utf8(self@.input.subrange(0, self@.position() as int)).len(),
    {
        let len = self.input.as_str().unicode_len();
        let at = if self.cursor <= len {
            self.cursor
        } else {
            len
        };
        self.input.as_str().substring_char(0, at).as_bytes().len()
    }

    /// The column of the screen on which the cursor is shown, in a box
    /// whose frame stands on column `left`: one column for the frame, one
    /// for each character before the cursor. Where that is more than a
    /// screen has columns, it is the last column there can be.
    pub fn cursor_column(&self, left: u16) -> (column: u16)
        ensures
            column == if left + self.cursor + 1 <= u16::MAX {
                left + self.cursor + 1
            } else {
                u16::MAX as int
            },
    {
        let room = (u16::MAX - left) as usize;
        if self.cursor < room {
            left + self.cursor as u16 + 1
        } else {
            u16::MAX
        }
    }

    pub fn reset_cursor(&mut self)
        ensures
            final(self)@ == old(self)@.with_cursor(0),
    {
        self.cursor = 0;
    }

    pub fn set_mode(&mut self, mode: InputMode)
        ensures
            final(self)@ == old(self)@.with_mode(mode),
    {
        self.mode = mode;
    }

    /// Empties the text and puts the cursor at the start; the mode stays.
    pub fn clear(&mut self)
        ensures
            final(self)@ == old(self)@.cleared(),
    {
        self.input = String::new();
        self.cursor = 0;
    }

    /// Handles a key event. Returns true if Enter was pressed while editing.
    pub fn handle_key(&mut self, key: &KeyEvent) -> (submitted: bool)
        ensures
            final(self)@ == old(self)@.after_key(*key),
            submitted == old(self)@.submits(*key),
    {
        match self.mode {
            InputMode::Normal => false,
            InputMode::Editing => {
                match key.kind {
                    KeyEventKind::Press => match key.code {
                        KeyCode::Enter => true,
                        KeyCode::Char(c) => {
                            self.enter_char(c);
                            false
                        },
                        KeyCode::Backspace => {
                            self.delete_char();
                            false
                        },
                        KeyCode::Left => {
                            self.move_cursor_left();
                            false
                        },
                        KeyCode::Right => {
                            self.move_cursor_right();
                            false
                        },
                        _ => false,
                    },
                    _ => false,
                }
            },
        }
    }
}

} // verus!
