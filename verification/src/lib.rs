//! A terminal chat client's core: a reducer that folds terminal and network
//! events into one state, and a publish/subscribe layer that routes encrypted
//! payloads through topics of a chat room.

use vstd::prelude::*;

pub mod app;
pub mod chat_room;
pub mod crypto;
pub mod error;
pub mod events_publisher;
pub mod events_reader;
pub mod network;
pub mod queue;
pub mod renderer;
pub mod text;
pub mod ui;

verus! {

/// What a key press means to the chat: one edit of the input line, a
/// submission, a scroll, or the request to leave.
#[derive(Clone, Copy, Debug, PartialEq, Eq, Structural)]
pub enum TerminalEvent {
    Quit,
    Character(char),
    Accept,
    Remove,
    RemoveLast,
    CursorLeft,
    CursorRight,
    CursorStart,
    CursorEnd,
    ScrollUp,
    ScrollDown,
}

impl View for TerminalEvent {
    type V = TerminalEvent;

    /// An event is its own value.
    open spec fn view(&self) -> TerminalEvent {
        *self
    }
}

} // verus!
