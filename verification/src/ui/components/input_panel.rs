//! The panel in which the user composes a message.

use vstd::prelude::*;
use vstd::string::*;

use crate::events_reader::terminal::{KeyCode, KeyEvent};
use crate::text::{edit_line, Line};
use crate::TerminalEvent;

verus! {

/// The edit that a key makes in the panel, if it makes one. Every
/// character is typed, whatever the modifiers.
pub open spec fn key_edit(code: KeyCode) -> Option<TerminalEvent> {
    match code {
        KeyCode::Char(c) => Some(TerminalEvent::Character(c)),
        KeyCode::Delete => Some(TerminalEvent::Remove),
        KeyCode::Backspace => Some(TerminalEvent::RemoveLast),
        KeyCode::Left => Some(TerminalEvent::CursorLeft),
        KeyCode::Right => Some(TerminalEvent::CursorRight),
        KeyCode::Home => Some(TerminalEvent::CursorStart),
        KeyCode::End => Some(TerminalEvent::CursorEnd),
        _ => None,
    }
}

/// The line after a key. Enter clears a line that holds text; keys that
/// edit do so; all others leave the line as it is.
pub open spec fn after_key(line: Line, code: KeyCode) -> Line {
    match code {
        KeyCode::Enter => if line.text.len() > 0 {
            Line { text: Seq::empty(), cursor: 0 }
        } else {
            line
        },
        _ => match key_edit(code) {
            Some(event) => line.edit(event),
            None => line,
        },
    }
}

/// The text that a key sends to the room: on Enter what the line holds,
/// unless it holds nothing.
pub open spec fn submitted(line: Line, code: KeyCode) -> Option<Seq<char>> {
    match code {
        KeyCode::Enter => if line.text.len() > 0 {
            Some(line.text)
        } else {
            None
        },
        _ => None,
    }
}

/// No key moves the cursor out of the text.
pub proof fn keys_keep_cursor_in_text(line: Line, code: KeyCode)
    requires
        line.wf(),
    ensures
        after_key(line, code).wf(),
{
}

/// The edit that a key makes in the panel.
pub fn edit_of(code: KeyCode) -> (event: Option<TerminalEvent>)
    ensures
        event == key_edit(code),
{
    match code {
        KeyCode::Char(c) => Some(TerminalEvent::Character(c)),
        KeyCode::Delete => Some(TerminalEvent::Remove),
        KeyCode::Backspace => Some(TerminalEvent::RemoveLast),
        KeyCode::Left => Some(TerminalEvent::CursorLeft),
        KeyCode::Right => Some(TerminalEvent::CursorRight),
        KeyCode::Home => Some(TerminalEvent::CursorStart),
        KeyCode::End => Some(TerminalEvent::CursorEnd),
        _ => None,
    }
}

/// The input line of the view, and the room that its messages go to.
pub struct InputPanel<C> {
    input_message: String,
    cursor: usize,
    chat_room: C,
}

impl<C> InputPanel<C> {
    /// The line under edit.
    pub closed spec fn line(&self) -> Line {
        Line { text: self.input_message@, cursor: self.cursor as int }
    }

    /// The room that was given to the panel.
    pub closed spec fn room(&self) -> C {
        self.chat_room
    }

    /// The invariant of the panel: the cursor lies within the text. Every
    /// panel is made with it and `update` keeps it.
    pub open spec fn wf(&self) -> bool {
        self.line().wf()
    }

    pub fn new(chat_room: C) -> (panel: InputPanel<C>)
        ensures
            panel.line() == (Line { text: Seq::empty(), cursor: 0 }),
            panel.room() == chat_room,
            panel.wf(),
    {
        InputPanel { input_message: String::new(), cursor: 0, chat_room }
    }

    /// Whether the cursor lies within the text, so that the panel may take
    /// a key.
    pub fn is_wf(&self) -> (ok: bool)
        ensures
            ok == self.wf(),
    {
        self.cursor <= self.input_message.as_str().unicode_len()
    }

    /// The room to send to.
    pub fn chat_room(&self) -> (room: &C)
        ensures
            *room == self.room(),
    {
        &self.chat_room
    }

    /// The text under edit.
    pub fn input_message(&self) -> (text: &str)
        ensures
            text@ == self.line().text,
    {
        self.input_message.as_str()
    }

    /// The cursor's position, in characters.
    pub fn cursor(&self) -> (cursor: usize)
        ensures
            cursor == self.line().cursor,
    {
        self.cursor
    }

    /// Takes one key and returns the text to send to the room, if the key
    /// submits one.
    pub fn update(&mut self, event: KeyEvent) -> (send: Option<String>)
        requires
            old(self).wf(),
        ensures
            final(self).line() == after_key(old(self).line(), event.code),
            final(self).wf(),
            final(self).room() == old(self).room(),
            match send {
                Some(text) => submitted(old(self).line(), event.code) == Some(text@),
                None => submitted(old(self).line(), event.code).is_none(),
            },
    {
        match event.code {
            KeyCode::Enter => {
                if self.input_message.as_str().unicode_len() > 0 {
                    let message = self.input_message.clone();
                    self.input_message = String::new();
                    self.cursor = 0;
                    Some(message)
                } else {
                    None
                }
            },
            code => {
                match edit_of(code) {
                    Some(edit) => {
                        edit_line(&mut self.input_message, &mut self.cursor, edit);
                    },
                    None => {},
                }
                None
            },
        }
    }
}

} // verus!
