//! Editing a line of text by character position.
//!
//! The line is a `String`; positions count characters, so that a cursor
//! moves by one for every character whatever its width in bytes.

use vstd::prelude::*;
use vstd::string::*;

use crate::TerminalEvent;

verus! {

/// A line under edit, as a value: its characters and the cursor's position.
pub struct Line {
    pub text: Seq<char>,
    pub cursor: int,
}

impl Line {
    /// The cursor stands on a character or just behind the last.
    pub open spec fn wf(self) -> bool {
        0 <= self.cursor <= self.text.len()
    }

    /// The line after one event. Events that do not edit leave it as it is,
    /// and so does a move or a removal that would leave the text.
    pub open spec fn edit(self, event: TerminalEvent) -> Line {
        match event {
            TerminalEvent::Character(c) => Line {
                text: self.text.insert(self.cursor, c),
                cursor: self.cursor + 1,
            },
            TerminalEvent::Remove => if self.cursor < self.text.len() {
                Line { text: self.text.remove(self.cursor), cursor: self.cursor }
            } else {
                self
            },
            TerminalEvent::RemoveLast => if self.cursor > 0 {
                Line { text: self.text.remove(self.cursor - 1), cursor: self.cursor - 1 }
            } else {
                self
            },
            TerminalEvent::CursorStart => Line { text: self.text, cursor: 0 },
            TerminalEvent::CursorEnd => Line { text: self.text, cursor: self.text.len() as int },
            TerminalEvent::CursorLeft => if self.cursor > 0 {
                Line { text: self.text, cursor: self.cursor - 1 }
            } else {
                self
            },
            TerminalEvent::CursorRight => if self.cursor < self.text.len() {
                Line { text: self.text, cursor: self.cursor + 1 }
            } else {
                self
            },
            _ => self,
        }
    }
}

/// Appends one character.
///
/// Calls `String::push`, which appends the given character to the end of
/// the string.
#[verifier::external_body]
fn push_char(text: &mut String, c: char)
    ensures
        final(text)@ == old(text)@.push(c),
{
    text.push(c);
}

/// The text with `c` put in front of the character at `at`.
pub fn insert_at(text: &String, at: usize, c: char) -> (out: String)
    requires
        at <= text@.len(),
    ensures
        out@ == text@.insert(at as int, c),
{
    let whole = text.as_str();
    let len = whole.unicode_len();
    let mut out = String::from_str(whole.substring_char(0, at));
    push_char(&mut out, c);
    out.append(whole.substring_char(at, len));
    assert(out@ =~= text@.insert(at as int, c));
    out
}

/// The text without the character at `at`.
pub fn remove_at(text: &String, at: usize) -> (out: String)
    requires
        at < text@.len(),
    ensures
        out@ == text@.remove(at as int),
{
    let whole = text.as_str();
    let len = whole.unicode_len();
    let mut out = String::from_str(whole.substring_char(0, at));
    out.append(whole.substring_char(at + 1, len));
    assert(out@ =~= text@.remove(at as int));
    out
}

/// Applies one event to a line and its cursor.
pub fn edit_line(text: &mut String, cursor: &mut usize, event: TerminalEvent)
    requires
        *old(cursor) <= old(text)@.len(),
    ensures
        (Line { text: final(text)@, cursor: *final(cursor) as int }) == (Line {
            text: old(text)@,
            cursor: *old(cursor) as int,
        }).edit(event),
        *final(cursor) <= final(text)@.len(),
{
    let len = text.as_str().unicode_len();
    match event {
        TerminalEvent::Character(c) => {
            let edited = insert_at(text, *cursor, c);
            let longer = edited.as_str().unicode_len();
            assert(longer == len + 1);
            *text = edited;
            *cursor = *cursor + 1;
        },
        TerminalEvent::Remove => {
            if *cursor < len {
                let edited = remove_at(text, *cursor);
                *text = edited;
            }
        },
        TerminalEvent::RemoveLast => {
            if *cursor > 0 {
                *cursor = *cursor - 1;
                let edited = remove_at(text, *cursor);
                *text = edited;
            }
        },
        TerminalEvent::CursorStart => {
            *cursor = 0;
        },
        TerminalEvent::CursorEnd => {
            *cursor = len;
        },
        TerminalEvent::CursorLeft => {
            if *cursor > 0 {
                *cursor = *cursor - 1;
            }
        },
        TerminalEvent::CursorRight => {
            if *cursor < len {
                *cursor = *cursor + 1;
            }
        },
        _ => {},
    }
}

} // verus!
