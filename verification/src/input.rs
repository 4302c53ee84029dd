//! Keys and what each of them does to a text area.

use crate::graphemes::backward_target;
use crate::graphemes::forward_target;
use crate::graphemes::step_backward;
use crate::graphemes::step_forward;
use crate::textarea::column_target;
use crate::textarea::end_target;
use crate::textarea::home_target;
use crate::textarea::kill_backward_start;
use crate::textarea::kill_forward_end;
use crate::textarea::spliced;
use crate::textarea::TextArea;
use crate::words::next_word_end;
use crate::words::prev_word_start;
use vstd::prelude::*;
use vstd::utf8::encode_utf8;
use vstd::utf8::is_char_boundary;

verus! {

/// The key that was pressed.
#[derive(Debug, Clone, Copy, PartialEq, Eq, Structural)]
pub enum KeyCode {
    /// A key that stands for a character.
    Char(char),
    Enter,
    Backspace,
    Delete,
    Left,
    Right,
    Up,
    Down,
    Home,
    End,
    Esc,
    /// Any other key.
    Other,
}

/// The modifier keys held while a key was pressed, one bit for each.
#[derive(Debug, Clone, Copy, PartialEq, Eq, Structural)]
pub struct KeyModifiers {
    pub bits: u8,
}

/// No modifier.
pub const MOD_NONE: u8 = 0;

/// The shift key.
pub const MOD_SHIFT: u8 = 1;

/// The control key.
pub const MOD_CONTROL: u8 = 2;

/// The alt key.
pub const MOD_ALT: u8 = 4;

/// A key press.
#[derive(Debug, Clone, Copy, PartialEq, Eq, Structural)]
pub struct KeyEvent {
    pub code: KeyCode,
    pub modifiers: KeyModifiers,
}

/// What a key press asks of a text area.
#[derive(Debug, Clone, Copy, PartialEq, Eq, Structural)]
pub enum TextAreaAction {
    /// Put the character in at the cursor.
    Insert(char),
    /// Put a line end in at the cursor.
    InsertNewline,
    /// Remove the word before the cursor.
    DeleteBackwardWord,
    /// Remove the cluster before the cursor.
    DeleteBackward,
    /// Remove the cluster behind the cursor.
    DeleteForward,
    /// Go to the beginning of the word before the cursor.
    MoveToPreviousWord,
    /// Go to the end of the word behind the cursor.
    MoveToNextWordEnd,
    /// Remove the line up to the cursor.
    KillToBeginningOfLine,
    /// Remove the line from the cursor on.
    KillToEndOfLine,
    MoveLeft,
    MoveRight,
    MoveUp,
    MoveDown,
    /// Go to the beginning of the line; to that of the line before if the
    /// cursor is there already and the flag is set.
    MoveToBeginningOfLine(bool),
    /// Go to the end of the line; to that of the line behind if the cursor
    /// is there already and the flag is set.
    MoveToEndOfLine(bool),
    /// Nothing: the key has no meaning here.
    Ignore,
}

/// What a key press asks for. A character typed alone or with shift is put
/// in. Enter, and control with `j` or `m`, is a line end. The rest are the
/// usual editing keys and their Emacs counterparts; keys held with alt are
/// never put in, since terminals send the word moves that way.
pub open spec fn key_action(event: KeyEvent) -> TextAreaAction {
    let m = event.modifiers.bits;
    match event.code {
        KeyCode::Char(c) => if m == MOD_NONE || m == MOD_SHIFT {
            TextAreaAction::Insert(c)
        } else if m == MOD_CONTROL && (c == 'j' || c == 'm') {
            TextAreaAction::InsertNewline
        } else if m == MOD_CONTROL && c == 'd' {
            TextAreaAction::DeleteForward
        } else if m == MOD_CONTROL && c == 'w' {
            TextAreaAction::DeleteBackwardWord
        } else if m == MOD_ALT && c == 'b' {
            TextAreaAction::MoveToPreviousWord
        } else if m == MOD_ALT && c == 'f' {
            TextAreaAction::MoveToNextWordEnd
        } else if m == MOD_CONTROL && c == 'u' {
            TextAreaAction::KillToBeginningOfLine
        } else if m == MOD_CONTROL && c == 'k' {
            TextAreaAction::KillToEndOfLine
        } else if m == MOD_CONTROL && c == 'a' {
            TextAreaAction::MoveToBeginningOfLine(true)
        } else if m == MOD_CONTROL && c == 'e' {
            TextAreaAction::MoveToEndOfLine(true)
        } else {
            TextAreaAction::Ignore
        },
        KeyCode::Enter => TextAreaAction::InsertNewline,
        KeyCode::Backspace => if m == MOD_ALT {
            TextAreaAction::DeleteBackwardWord
        } else if m == MOD_NONE {
            TextAreaAction::DeleteBackward
        } else {
            TextAreaAction::Ignore
        },
        KeyCode::Delete => TextAreaAction::DeleteForward,
        KeyCode::Left => if m == MOD_NONE {
            TextAreaAction::MoveLeft
        } else if m == MOD_ALT || m == MOD_CONTROL {
            TextAreaAction::MoveToPreviousWord
        } else {
            TextAreaAction::Ignore
        },
        KeyCode::Right => if m == MOD_NONE {
            TextAreaAction::MoveRight
        } else if m == MOD_ALT || m == MOD_CONTROL {
            TextAreaAction::MoveToNextWordEnd
        } else {
            TextAreaAction::Ignore
        },
        KeyCode::Up => TextAreaAction::MoveUp,
        KeyCode::Down => TextAreaAction::MoveDown,
        KeyCode::Home => TextAreaAction::MoveToBeginningOfLine(false),
        KeyCode::End => TextAreaAction::MoveToEndOfLine(false),
        KeyCode::Esc => TextAreaAction::Ignore,
        KeyCode::Other => TextAreaAction::Ignore,
    }
}

/// Finds what a key press asks for.
pub fn action_for(event: KeyEvent) -> (action: TextAreaAction)
    ensures
        action == key_action(event),
{
    let m = event.modifiers.bits;
    match event.code {
        KeyCode::Char(c) => {
            if m == MOD_NONE || m == MOD_SHIFT {
                TextAreaAction::Insert(c)
            } else if m == MOD_CONTROL {
                if c == 'j' || c == 'm' {
                    TextAreaAction::InsertNewline
                } else if c == 'd' {
                    TextAreaAction::DeleteForward
                } else if c == 'w' {
                    TextAreaAction::DeleteBackwardWord
                } else if c == 'u' {
                    TextAreaAction::KillToBeginningOfLine
                } else if c == 'k' {
                    TextAreaAction::KillToEndOfLine
                } else if c == 'a' {
                    TextAreaAction::MoveToBeginningOfLine(true)
                } else if c == 'e' {
                    TextAreaAction::MoveToEndOfLine(true)
                } else {
                    TextAreaAction::Ignore
                }
            } else if m == MOD_ALT {
                if c == 'b' {
                    TextAreaAction::MoveToPreviousWord
                } else if c == 'f' {
                    TextAreaAction::MoveToNextWordEnd
                } else {
                    TextAreaAction::Ignore
                }
            } else {
                TextAreaAction::Ignore
            }
        },
        KeyCode::Enter => TextAreaAction::InsertNewline,
        KeyCode::Backspace => {
            if m == MOD_ALT {
                TextAreaAction::DeleteBackwardWord
            } else if m == MOD_NONE {
                TextAreaAction::DeleteBackward
            } else {
                TextAreaAction::Ignore
            }
        },
        KeyCode::Delete => TextAreaAction::DeleteForward,
        KeyCode::Left => {
            if m == MOD_NONE {
                TextAreaAction::MoveLeft
            } else if m == MOD_ALT || m == MOD_CONTROL {
                TextAreaAction::MoveToPreviousWord
            } else {
                TextAreaAction::Ignore
            }
        },
        KeyCode::Right => {
            if m == MOD_NONE {
                TextAreaAction::MoveRight
            } else if m == MOD_ALT || m == MOD_CONTROL {
                TextAreaAction::MoveToNextWordEnd
            } else {
                TextAreaAction::Ignore
            }
        },
        KeyCode::Up => TextAreaAction::MoveUp,
        KeyCode::Down => TextAreaAction::MoveDown,
        KeyCode::Home => TextAreaAction::MoveToBeginningOfLine(false),
        KeyCode::End => TextAreaAction::MoveToEndOfLine(false),
        KeyCode::Esc => TextAreaAction::Ignore,
        KeyCode::Other => TextAreaAction::Ignore,
    }
}

/// `String::from` of a character: the text made of that one character.
#[verifier::external_body]
fn char_to_string(c: char) -> (text: String)
    ensures
        text@ == seq![c],
{
    String::from(c)
}

impl TextArea {
    /// Whether the area, as it stands, can do what `action` asks: edits and
    /// moves by cluster or by column need the cursor between two characters,
    /// and a removal has to begin and end between two characters.
    pub open spec fn accepts(&self, action: TextAreaAction) -> bool {
        match action {
            TextAreaAction::DeleteBackwardWord => self.cursor_on_boundary() && is_char_boundary(
                self.bytes(),
                prev_word_start(self.spec_text(), self.spec_cursor()),
            ),
            TextAreaAction::DeleteBackward => self.cursor_on_boundary() && is_char_boundary(
                self.bytes(),
                backward_target(self.spec_text(), self.spec_cursor() as usize, 1) as int,
            ),
            TextAreaAction::DeleteForward => self.cursor_on_boundary() && is_char_boundary(
                self.bytes(),
                forward_target(self.spec_text(), self.spec_cursor() as usize, 1) as int,
            ),
            TextAreaAction::MoveToPreviousWord
            | TextAreaAction::MoveToNextWordEnd
            | TextAreaAction::MoveToBeginningOfLine(_)
            | TextAreaAction::MoveToEndOfLine(_)
            | TextAreaAction::Ignore => true,
            _ => self.cursor_on_boundary(),
        }
    }

    /// Whether `after` is this area once it has done what `action` asks:
    /// what became of the text and where the cursor went.
    pub open spec fn performed(&self, action: TextAreaAction, after: &TextArea) -> bool {
        let bytes = self.bytes();
        let cursor = self.spec_cursor();
        let nothing = Seq::<u8>::empty();
        match action {
            TextAreaAction::Insert(c) => {
                &&& after.bytes() == spliced(bytes, cursor, cursor, encode_utf8(seq![c]))
                &&& after.spec_cursor() == cursor + encode_utf8(seq![c]).len()
            },
            TextAreaAction::InsertNewline => {
                &&& after.bytes() == spliced(bytes, cursor, cursor, encode_utf8("\n"@))
                &&& after.spec_cursor() == cursor + encode_utf8("\n"@).len()
            },
            TextAreaAction::DeleteBackwardWord => {
                &&& after.bytes() == spliced(
                    bytes,
                    prev_word_start(self.spec_text(), cursor),
                    cursor,
                    nothing,
                )
                &&& after.spec_cursor() == prev_word_start(self.spec_text(), cursor)
            },
            TextAreaAction::DeleteBackward => {
                &&& after.bytes() == spliced(
                    bytes,
                    backward_target(self.spec_text(), cursor as usize, 1) as int,
                    cursor,
                    nothing,
                )
                &&& after.spec_cursor() == backward_target(self.spec_text(), cursor as usize, 1)
            },
            TextAreaAction::DeleteForward => {
                &&& after.bytes() == spliced(
                    bytes,
                    cursor,
                    forward_target(self.spec_text(), cursor as usize, 1) as int,
                    nothing,
                )
                &&& after.spec_cursor() == cursor
            },
            TextAreaAction::MoveToPreviousWord => {
                &&& after.spec_text() == self.spec_text()
                &&& after.spec_cursor() == prev_word_start(self.spec_text(), cursor)
            },
            TextAreaAction::MoveToNextWordEnd => {
                &&& after.spec_text() == self.spec_text()
                &&& after.spec_cursor() == next_word_end(self.spec_text(), cursor)
            },
            TextAreaAction::KillToBeginningOfLine => {
                &&& after.bytes() == spliced(
                    bytes,
                    kill_backward_start(bytes, cursor),
                    cursor,
                    nothing,
                )
                &&& after.spec_cursor() == kill_backward_start(bytes, cursor)
            },
            TextAreaAction::KillToEndOfLine => {
                &&& after.bytes() == spliced(
                    bytes,
                    cursor,
                    kill_forward_end(bytes, cursor),
                    nothing,
                )
                &&& after.spec_cursor() == cursor
            },
            TextAreaAction::MoveLeft => {
                &&& after.spec_text() == self.spec_text()
                &&& after.spec_cursor() == backward_target(self.spec_text(), cursor as usize, 1)
            },
            TextAreaAction::MoveRight => {
                &&& after.spec_text() == self.spec_text()
                &&& after.spec_cursor() == forward_target(self.spec_text(), cursor as usize, 1)
            },
            TextAreaAction::MoveUp => {
                &&& after.spec_text() == self.spec_text()
                &&& match self.up_move() {
                    Some((line_start, line_end, target_col)) => {
                        &&& after.spec_cursor() == column_target(
                            bytes,
                            line_start as int,
                            line_end as int,
                            target_col as int,
                        )
                        &&& after.spec_preferred_col() == Some(target_col)
                    },
                    None => after.spec_cursor() == 0 && after.spec_preferred_col() is None,
                }
            },
            TextAreaAction::MoveDown => {
                &&& after.spec_text() == self.spec_text()
                &&& match self.down_move() {
                    Some((line_start, line_end, target_col)) => {
                        &&& after.spec_cursor() == column_target(
                            bytes,
                            line_start as int,
                            line_end as int,
                            target_col as int,
                        )
                        &&& after.spec_preferred_col() == Some(target_col)
                    },
                    None => after.spec_cursor() == bytes.len() && after.spec_preferred_col()
                        is None,
                }
            },
            TextAreaAction::MoveToBeginningOfLine(move_up_at_bol) => {
                &&& after.spec_text() == self.spec_text()
                &&& after.spec_cursor() == home_target(bytes, cursor, move_up_at_bol)
            },
            TextAreaAction::MoveToEndOfLine(move_down_at_eol) => {
                &&& after.spec_text() == self.spec_text()
                &&& after.spec_cursor() == end_target(bytes, cursor, move_down_at_eol)
            },
            TextAreaAction::Ignore => *after == *self,
        }
    }

    /// Does what `action` asks.
    pub fn apply(&mut self, action: TextAreaAction)
        requires
            old(self).wf(),
            old(self).accepts(action),
        ensures
            final(self).wf(),
            old(self).performed(action, final(self)),
    {
        proof {
            self.lemma_wf();
        }
        match action {
            TextAreaAction::Insert(c) => {
                let text = char_to_string(c);
                self.insert_str(text.as_str());
            },
            TextAreaAction::InsertNewline => {
                self.insert_str("\n");
            },
            TextAreaAction::DeleteBackwardWord => {
                self.delete_backward_word();
            },
            TextAreaAction::DeleteBackward => {
                self.delete_backward(1);
            },
            TextAreaAction::DeleteForward => {
                self.delete_forward(1);
            },
            TextAreaAction::MoveToPreviousWord => {
                let target = self.beginning_of_previous_word();
                self.set_cursor(target);
            },
            TextAreaAction::MoveToNextWordEnd => {
                let target = self.end_of_next_word();
                self.set_cursor(target);
            },
            TextAreaAction::KillToBeginningOfLine => {
                self.kill_to_beginning_of_line();
            },
            TextAreaAction::KillToEndOfLine => {
                self.kill_to_end_of_line();
            },
            TextAreaAction::MoveLeft => {
                self.move_cursor_left();
            },
            TextAreaAction::MoveRight => {
                self.move_cursor_right();
            },
            TextAreaAction::MoveUp => {
                self.move_cursor_up();
            },
            TextAreaAction::MoveDown => {
                self.move_cursor_down();
            },
            TextAreaAction::MoveToBeginningOfLine(move_up_at_bol) => {
                self.move_cursor_to_beginning_of_line(move_up_at_bol);
            },
            TextAreaAction::MoveToEndOfLine(move_down_at_eol) => {
                self.move_cursor_to_end_of_line(move_down_at_eol);
            },
            TextAreaAction::Ignore => {},
        }
    }

    /// Finds out whether the area, as it stands, can do what `action` asks.
    pub fn can_apply(&self, action: TextAreaAction) -> (ok: bool)
        requires
            self.wf(),
        ensures
            ok == self.accepts(action),
    {
        proof {
            self.lemma_wf();
        }
        let text = self.text();
        let cursor = self.cursor();
        match action {
            TextAreaAction::MoveToPreviousWord
            | TextAreaAction::MoveToNextWordEnd
            | TextAreaAction::MoveToBeginningOfLine(_)
            | TextAreaAction::MoveToEndOfLine(_)
            | TextAreaAction::Ignore => true,
            TextAreaAction::DeleteBackwardWord => text.is_char_boundary(cursor)
                && text.is_char_boundary(self.beginning_of_previous_word()),
            TextAreaAction::DeleteBackward => text.is_char_boundary(cursor)
                && text.is_char_boundary(step_backward(text, cursor, 1)),
            TextAreaAction::DeleteForward => text.is_char_boundary(cursor) && text.is_char_boundary(
                step_forward(text, cursor, 1),
            ),
            _ => text.is_char_boundary(cursor),
        }
    }

    /// Takes a key press and does what it asks, if the area can; else leaves
    /// the area as it is. Returns whether it could.
    pub fn try_input(&mut self, event: KeyEvent) -> (done: bool)
        requires
            old(self).wf(),
        ensures
            final(self).wf(),
            done == old(self).accepts(key_action(event)),
            done ==> old(self).performed(key_action(event), final(self)),
            !done ==> *final(self) == *old(self),
    {
        let action = action_for(event);
        if self.can_apply(action) {
            self.apply(action);
            true
        } else {
            false
        }
    }

    /// Takes a key press and does what it asks.
    pub fn input(&mut self, event: KeyEvent)
        requires
            old(self).wf(),
            old(self).accepts(key_action(event)),
        ensures
            final(self).wf(),
            old(self).performed(key_action(event), final(self)),
    {
        self.apply(action_for(event));
    }
}

} // verus!
