//! The terminal as a source of events: which key means what, and when the
//! reading ends.

use vstd::prelude::*;

use super::{reaches_all, Delivery, Duplicate, EventsReader, ReaderStep, Subscribers};
use crate::app::LoopStep;
use crate::error::Error;
use crate::TerminalEvent;

verus! {

/// A key of the keyboard.
#[derive(Clone, Copy, Debug, PartialEq, Eq, Structural)]
pub enum KeyCode {
    Backspace,
    Enter,
    Left,
    Right,
    Up,
    Down,
    Home,
    End,
    PageUp,
    PageDown,
    Tab,
    BackTab,
    Delete,
    Insert,
    F(u8),
    Char(char),
    Null,
    Esc,
}

/// The modifier keys held down with a key.
#[derive(Clone, Copy, Debug, PartialEq, Eq, Structural)]
pub struct KeyModifiers {
    pub shift: bool,
    pub control: bool,
    pub alt: bool,
}

impl KeyModifiers {
    /// No modifier.
    pub open spec fn none() -> KeyModifiers {
        KeyModifiers { shift: false, control: false, alt: false }
    }

    /// Control and nothing else.
    pub open spec fn only_control(self) -> bool {
        self.control && !self.shift && !self.alt
    }
}

/// One press of a key.
#[derive(Clone, Copy, Debug, PartialEq, Eq, Structural)]
pub struct KeyEvent {
    pub code: KeyCode,
    pub modifiers: KeyModifiers,
}

/// One record of terminal input. Of mouse records nothing is kept: they
/// are ignored.
#[derive(Clone, Copy, Debug, PartialEq, Eq, Structural)]
pub enum Event {
    Key(KeyEvent),
    Mouse,
    Resize(u16, u16),
}

/// What the terminal's stream gave when it was asked for the next record.
#[derive(Clone, Copy, Debug, PartialEq, Eq, Structural)]
pub enum Input {
    Record(Event),
    Failure(Error),
    End,
}

/// What a key press means, if anything. Escape, and `c` with control alone,
/// mean quit; any other character is typed, whatever the modifiers.
pub open spec fn meaning(key: KeyEvent) -> Option<TerminalEvent> {
    match key.code {
        KeyCode::Esc => Some(TerminalEvent::Quit),
        KeyCode::Char(c) => if c == 'c' && key.modifiers.only_control() {
            Some(TerminalEvent::Quit)
        } else {
            Some(TerminalEvent::Character(c))
        },
        KeyCode::Enter => Some(TerminalEvent::Accept),
        KeyCode::Delete => Some(TerminalEvent::Remove),
        KeyCode::Backspace => Some(TerminalEvent::RemoveLast),
        KeyCode::Left => Some(TerminalEvent::CursorLeft),
        KeyCode::Right => Some(TerminalEvent::CursorRight),
        KeyCode::Home => Some(TerminalEvent::CursorStart),
        KeyCode::End => Some(TerminalEvent::CursorEnd),
        KeyCode::Up => Some(TerminalEvent::ScrollUp),
        KeyCode::Down => Some(TerminalEvent::ScrollDown),
        _ => None,
    }
}

/// The event that one item of input makes known to the subscribers: the
/// meaning of a key press that has one, and nothing for anything else.
pub open spec fn announced(input: Input) -> Option<TerminalEvent> {
    match input {
        Input::Record(Event::Key(key)) => meaning(key),
        _ => None,
    }
}

/// What the reader does after one item of input: it stops without failure
/// at the end of the stream and after a quit, fails with the stream's
/// failure, and reads on otherwise.
pub open spec fn after_input(input: Input) -> LoopStep {
    match input {
        Input::End => LoopStep::Finished,
        Input::Failure(error) => LoopStep::Failed(error),
        Input::Record(_) => if announced(input) == Some(TerminalEvent::Quit) {
            LoopStep::Finished
        } else {
            LoopStep::Continue
        },
    }
}

/// Every record has at most one meaning, and only key presses have one.
pub proof fn only_keys_are_announced(input: Input)
    ensures
        announced(input).is_some() ==> input matches Input::Record(Event::Key(_)),
        after_input(input) == LoopStep::Continue ==> input matches Input::Record(_),
{
}

/// What a key press means.
pub fn translate(key: KeyEvent) -> (event: Option<TerminalEvent>)
    ensures
        event == meaning(key),
{
    match key.code {
        KeyCode::Esc => Some(TerminalEvent::Quit),
        KeyCode::Char(c) => {
            if c == 'c' && key.modifiers.control && !key.modifiers.shift && !key.modifiers.alt {
                Some(TerminalEvent::Quit)
            } else {
                Some(TerminalEvent::Character(c))
            }
        },
        KeyCode::Enter => Some(TerminalEvent::Accept),
        KeyCode::Delete => Some(TerminalEvent::Remove),
        KeyCode::Backspace => Some(TerminalEvent::RemoveLast),
        KeyCode::Left => Some(TerminalEvent::CursorLeft),
        KeyCode::Right => Some(TerminalEvent::CursorRight),
        KeyCode::Home => Some(TerminalEvent::CursorStart),
        KeyCode::End => Some(TerminalEvent::CursorEnd),
        KeyCode::Up => Some(TerminalEvent::ScrollUp),
        KeyCode::Down => Some(TerminalEvent::ScrollDown),
        _ => None,
    }
}

/// Whether the key press asks to leave.
pub fn quit_event_happened(event: KeyEvent) -> (quit: bool)
    ensures
        quit == (meaning(event) == Some(TerminalEvent::Quit)),
{
    match translate(event) {
        Some(TerminalEvent::Quit) => true,
        _ => false,
    }
}

impl Duplicate for TerminalEvent {
    fn duplicate(&self) -> (copy: TerminalEvent) {
        *self
    }
}

/// Reads the terminal and announces what the key presses mean.
#[derive(Debug)]
pub struct CrosstermEventsHandler<S> {
    subscribers: Subscribers<S>,
    ended: bool,
}

impl<S> CrosstermEventsHandler<S> {
    /// Those who have subscribed, in their order.
    pub closed spec fn subscribers(&self) -> Seq<S> {
        self.subscribers@
    }

    /// Whether the reading has ended. Once it has, nothing is announced
    /// any more.
    pub closed spec fn ended(&self) -> bool {
        self.ended
    }

    pub fn new() -> (reader: CrosstermEventsHandler<S>)
        ensures
            reader.subscribers() == Seq::<S>::empty(),
            !reader.ended(),
    {
        CrosstermEventsHandler { subscribers: Subscribers::new(), ended: false }
    }

    /// Whether the reading has ended.
    pub fn has_ended(&self) -> (ended: bool)
        ensures
            ended == self.ended(),
    {
        self.ended
    }

    /// Registers a subscriber behind all others.
    pub fn subscribe(&mut self, callback: S)
        ensures
            final(self).subscribers() == old(self).subscribers().push(callback),
            final(self).ended() == old(self).ended(),
    {
        self.subscribers.subscribe(callback);
    }

    /// The deliveries that announce `event`: one for every subscriber.
    pub fn notify_subscribers<'a>(&'a self, event: TerminalEvent) -> (deliveries: Vec<
        Delivery<'a, S, TerminalEvent>,
    >)
        ensures
            reaches_all(deliveries@, self.subscribers(), event),
    {
        self.subscribers.fan_out(&event)
    }

    /// Takes one item of input. While the reading goes on, a key press with
    /// a meaning is announced to every subscriber, quit included, and
    /// `after_input` says whether the reading goes on. Once it has ended,
    /// nothing is announced.
    pub fn on_input<'a>(&'a mut self, input: Input) -> (step: ReaderStep<'a, S, TerminalEvent>)
        ensures
            final(self).subscribers() == old(self).subscribers(),
            old(self).ended() ==> step.next == LoopStep::Finished && step.deliveries@.len() == 0
                && final(self).ended(),
            !old(self).ended() ==> step.next == after_input(input) && final(self).ended() == (
            after_input(input) != LoopStep::Continue) && match announced(input) {
                Some(event) => reaches_all(step.deliveries@, old(self).subscribers(), event),
                None => step.deliveries@.len() == 0,
            },
    {
        if self.ended {
            return ReaderStep { deliveries: Vec::new(), next: LoopStep::Finished };
        }
        match input {
            Input::End => {
                self.ended = true;
                ReaderStep { deliveries: Vec::new(), next: LoopStep::Finished }
            },
            Input::Failure(error) => {
                self.ended = true;
                ReaderStep { deliveries: Vec::new(), next: LoopStep::Failed(error) }
            },
            Input::Record(Event::Key(key)) => match translate(key) {
                Some(event) => {
                    let next = match event {
                        TerminalEvent::Quit => LoopStep::Finished,
                        _ => LoopStep::Continue,
                    };
                    self.ended = next != LoopStep::Continue;
                    let deliveries = self.subscribers.fan_out(&event);
                    ReaderStep { deliveries, next }
                },
                None => ReaderStep { deliveries: Vec::new(), next: LoopStep::Continue },
            },
            Input::Record(_) => ReaderStep { deliveries: Vec::new(), next: LoopStep::Continue },
        }
    }
}

impl<S> EventsReader for CrosstermEventsHandler<S> {
    type Message = TerminalEvent;

    type Item = Input;

    type Subscriber = S;

    open spec fn registered(&self) -> Seq<S> {
        self.subscribers()
    }

    open spec fn stopped(&self) -> bool {
        self.ended()
    }

    fn subscribe(&mut self, callback: S) {
        self.subscribers.subscribe(callback);
    }

    fn take<'a>(&'a mut self, item: Input) -> (step: ReaderStep<'a, S, TerminalEvent>) {
        self.on_input(item)
    }
}

impl<S> Default for CrosstermEventsHandler<S> {
    fn default() -> (reader: CrosstermEventsHandler<S>)
        ensures
            reader.subscribers() == Seq::<S>::empty(),
            !reader.ended(),
    {
        CrosstermEventsHandler::new()
    }
}

} // verus!
