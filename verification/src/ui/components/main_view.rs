//! The whole view: messages above, help below them, input at the bottom.

use vstd::prelude::*;

use super::help_msg::HelpMsg;
use super::input_panel::{after_key, submitted, InputPanel};
use super::messages_panel::MessagesPanel;
use crate::app::LoopStep;
use crate::error::Error;
use crate::events_reader::terminal::{meaning, quit_event_happened, Event, Input, KeyEvent};
use crate::text::Line;
use crate::TerminalEvent;

verus! {

/// What the driver of the view does after one item of input.
#[derive(Debug)]
pub struct ViewStep {
    /// The text to send to the room, if the input submitted one.
    pub send: Option<String>,
    /// Whether to go on.
    pub next: LoopStep,
}

/// Whether an item of input is a key press that asks to leave.
pub open spec fn asks_to_quit(input: Input) -> bool {
    match input {
        Input::Record(Event::Key(key)) => meaning(key) == Some(TerminalEvent::Quit),
        _ => false,
    }
}

/// The key that an item of input hands to the panels: any key press but
/// one that asks to leave.
pub open spec fn key_for_panels(input: Input) -> Option<KeyEvent> {
    match input {
        Input::Record(Event::Key(key)) => if asks_to_quit(input) {
            None
        } else {
            Some(key)
        },
        _ => None,
    }
}

/// What the driver does after an item of input: it ends on a key that asks
/// to leave, fails when the terminal fails or has no more input, and goes
/// on otherwise.
pub open spec fn driver_step(input: Input) -> LoopStep {
    match input {
        Input::End => LoopStep::Failed(Error::Terminal),
        Input::Failure(error) => LoopStep::Failed(error),
        Input::Record(_) => if asks_to_quit(input) {
            LoopStep::Finished
        } else {
            LoopStep::Continue
        },
    }
}

/// The three parts of the screen.
pub struct MainView<C> {
    msg_panel: MessagesPanel<C>,
    help_msg: HelpMsg,
    input_panel: InputPanel<C>,
}

impl<C> MainView<C> where C: Clone {
    /// The line under edit in the input panel.
    pub closed spec fn line(&self) -> Line {
        self.input_panel.line()
    }

    /// The room that the input panel sends to.
    pub closed spec fn room(&self) -> C {
        self.input_panel.room()
    }

    /// The panel that lists the messages.
    pub closed spec fn messages(&self) -> MessagesPanel<C> {
        self.msg_panel
    }

    /// The invariant of the view: that of its input panel.
    pub open spec fn wf(&self) -> bool {
        self.line().wf()
    }

    /// A view on a room, with an empty input line. The input panel gets
    /// the room itself, the panel of messages a clone of it.
    pub fn new(chat_room: C) -> (view: MainView<C>)
        ensures
            view.line() == (Line { text: Seq::empty(), cursor: 0 }),
            view.room() == chat_room,
            cloned(chat_room, view.messages().room()),
            view.wf(),
    {
        let msg_panel = MessagesPanel::new(chat_room.clone());
        let help_msg = HelpMsg::new();
        let input_panel = InputPanel::new(chat_room);
        MainView { msg_panel, help_msg, input_panel }
    }

    /// Whether the view may take input.
    pub fn is_wf(&self) -> (ok: bool)
        ensures
            ok == self.wf(),
    {
        self.input_panel.is_wf()
    }

    /// The panel of messages. It holds a clone of the room, made by the
    /// room's own `clone`.
    pub fn msg_panel(&self) -> (panel: &MessagesPanel<C>)
        ensures
            *panel == self.messages(),
    {
        &self.msg_panel
    }

    pub fn help_msg(&self) -> (help: &HelpMsg)
        ensures
            *help == (HelpMsg {  }),
    {
        &self.help_msg
    }

    pub fn input_panel(&self) -> (panel: &InputPanel<C>)
        ensures
            panel.line() == self.line(),
            panel.room() == self.room(),
    {
        &self.input_panel
    }

    /// Hands a key to the input panel and returns the text to send, if the
    /// key submits one.
    pub fn update(&mut self, event: KeyEvent) -> (send: Option<String>)
        requires
            old(self).wf(),
        ensures
            final(self).line() == after_key(old(self).line(), event.code),
            final(self).wf(),
            final(self).room() == old(self).room(),
            final(self).messages() == old(self).messages(),
            match send {
                Some(text) => submitted(old(self).line(), event.code) == Some(text@),
                None => submitted(old(self).line(), event.code).is_none(),
            },
    {
        self.input_panel.update(event)
    }

    /// One turn of the driver, on what the terminal gave. A key that asks
    /// to leave ends the loop and is not handed on; any other key goes to
    /// the input panel; everything else is ignored.
    pub fn on_input(&mut self, input: Input) -> (step: ViewStep)
        requires
            old(self).wf(),
        ensures
            final(self).wf(),
            final(self).room() == old(self).room(),
            final(self).messages() == old(self).messages(),
            step.next == driver_step(input),
            match key_for_panels(input) {
                Some(key) => {
                    &&& final(self).line() == after_key(old(self).line(), key.code)
                    &&& match step.send {
                        Some(text) => submitted(old(self).line(), key.code) == Some(text@),
                        None => submitted(old(self).line(), key.code).is_none(),
                    }
                },
                None => final(self).line() == old(self).line() && step.send.is_none(),
            },
    {
        match input {
            Input::End => ViewStep { send: None, next: LoopStep::Failed(Error::Terminal) },
            Input::Failure(error) => ViewStep { send: None, next: LoopStep::Failed(error) },
            Input::Record(Event::Key(key)) => {
                if quit_event_happened(key) {
                    ViewStep { send: None, next: LoopStep::Finished }
                } else {
                    let send = self.update(key);
                    ViewStep { send, next: LoopStep::Continue }
                }
            },
            Input::Record(_) => ViewStep { send: None, next: LoopStep::Continue },
        }
    }
}

} // verus!
