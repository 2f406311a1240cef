//! The reducer for what the user does in the terminal.

use vstd::prelude::*;
use vstd::string::*;
use vstd::utf8::encode_utf8;

use crate::error::Error;
use crate::events_publisher::EventsPublisher;
use crate::network::NetworkEvent;
use crate::renderer::{clock_now, Message, MessageView, State, StateView, Timestamp};
use crate::text::{edit_line, Line};
use crate::TerminalEvent;

verus! {

/// The line that the state holds under its cursor.
pub open spec fn input_line(state: StateView) -> Line {
    Line { text: state.input_message, cursor: state.cursor }
}

/// The state after one terminal event that happens at `now`.
///
/// `Quit` raises the flag. `Accept` turns the input into a message of the
/// current user, appends it, and clears the line. Every other event edits
/// the line, or does nothing where it would leave the text.
pub open spec fn reduce(state: StateView, event: TerminalEvent, now: Timestamp) -> StateView {
    match event {
        TerminalEvent::Quit => StateView { quit: true, ..state },
        TerminalEvent::Accept => StateView {
            input_message: Seq::empty(),
            cursor: 0,
            messages: state.messages.push(
                MessageView { user: state.current_user, msg: state.input_message, time: now },
            ),
            ..state
        },
        _ => {
            let line = input_line(state).edit(event);
            StateView { input_message: line.text, cursor: line.cursor, ..state }
        },
    }
}

/// The payload that an event sends to the network from a state: on `Accept`
/// the input's text as UTF-8, else nothing.
pub open spec fn published(state: StateView, event: TerminalEvent) -> Option<Seq<u8>> {
    match event {
        TerminalEvent::Accept => Some(encode_utf8(state.input_message)),
        _ => None,
    }
}

/// Whether `sent` may be what comes of handing over what an event sends
/// from a state: the publisher's answer to an event with that payload, and
/// success where nothing is sent.
pub open spec fn hands_over<EP: EventsPublisher<Message = NetworkEvent>>(
    publisher: EP,
    state: StateView,
    event: TerminalEvent,
    sent: Result<(), Error>,
) -> bool {
    match published(state, event) {
        Some(payload) => exists|handed: NetworkEvent|
            handed@ == payload && #[trigger] publisher.publishes(handed, sent),
        None => sent.is_ok(),
    }
}

/// At the left end of the input, moving left and removing leftwards change
/// nothing; at the right end, moving right changes nothing.
pub proof fn boundaries_are_idempotent(state: StateView, now: Timestamp)
    ensures
        state.cursor == 0 ==> reduce(state, TerminalEvent::CursorLeft, now) == state,
        state.cursor == 0 ==> reduce(state, TerminalEvent::RemoveLast, now) == state,
        state.cursor == state.input_message.len() ==> reduce(
            state,
            TerminalEvent::CursorRight,
            now,
        ) == state,
        state.cursor == state.input_message.len() ==> reduce(state, TerminalEvent::Remove, now)
            == state,
{
}

/// No event moves the cursor out of the input.
pub proof fn cursor_stays_in_input(state: StateView, event: TerminalEvent, now: Timestamp)
    requires
        state.wf(),
    ensures
        reduce(state, event, now).wf(),
{
}

/// `Accept` empties the line, resets the cursor and appends exactly one
/// message, which holds what the line held, even when that was nothing.
pub proof fn accept_drains(state: StateView, now: Timestamp)
    ensures
        reduce(state, TerminalEvent::Accept, now).input_message == Seq::<char>::empty(),
        reduce(state, TerminalEvent::Accept, now).cursor == 0,
        reduce(state, TerminalEvent::Accept, now).messages.len() == state.messages.len() + 1,
        reduce(state, TerminalEvent::Accept, now).messages.drop_last() == state.messages,
        reduce(state, TerminalEvent::Accept, now).messages.last() == (MessageView {
            user: state.current_user,
            msg: state.input_message,
            time: now,
        }),
        reduce(state, TerminalEvent::Accept, now).quit == state.quit,
        reduce(state, TerminalEvent::Accept, now).current_user == state.current_user,
{
    let after = reduce(state, TerminalEvent::Accept, now);
    assert(after.messages.drop_last() =~= state.messages);
}

/// The flag, once raised, stays raised, and messages are only ever appended.
pub proof fn quit_and_messages_are_monotonic(
    state: StateView,
    event: TerminalEvent,
    now: Timestamp,
)
    ensures
        state.quit ==> reduce(state, event, now).quit,
        state.messages.is_prefix_of(reduce(state, event, now).messages),
        reduce(state, event, now).current_user == state.current_user,
{
}

/// Applies one event that happens at `now` and returns what it sends to
/// the network.
pub fn apply(state: &mut State, event: TerminalEvent, now: Timestamp) -> (out: Option<
    NetworkEvent,
>)
    requires
        old(state).wf(),
    ensures
        final(state)@ == reduce(old(state)@, event, now),
        final(state).wf(),
        match out {
            Some(sent) => published(old(state)@, event) == Some(sent@),
            None => published(old(state)@, event).is_none(),
        },
{
    match event {
        TerminalEvent::Quit => {
            state.quit = true;
            None
        },
        TerminalEvent::Accept => {
            let text = state.input_message.clone();
            let payload = text.as_str().as_bytes_vec();
            state.input_message = String::new();
            state.cursor = 0;
            state.messages.push(Message::at(state.current_user.clone(), text, now));
            assert(state@.messages =~= reduce(old(state)@, event, now).messages);
            Some(NetworkEvent::Message(payload))
        },
        _ => {
            edit_line(&mut state.input_message, &mut state.cursor, event);
            None
        },
    }
}

/// Applies terminal events to the state and hands what they send to a
/// publisher.
pub struct TerminalEventsHandler<EP> where EP: EventsPublisher<Message = NetworkEvent> {
    events_publisher: EP,
}

impl<EP> TerminalEventsHandler<EP> where EP: EventsPublisher<Message = NetworkEvent> {
    /// The publisher that receives what is sent.
    pub closed spec fn publisher(&self) -> EP {
        self.events_publisher
    }

    pub fn new(events_publisher: EP) -> (handler: TerminalEventsHandler<EP>)
        ensures
            handler.publisher() == events_publisher,
    {
        TerminalEventsHandler { events_publisher }
    }

    /// Applies one event as of the clock's present instant. Where the event
    /// sends something, the publisher is called once with it and its answer
    /// is returned; the state has changed by then, whatever the answer.
    pub fn handle(&self, state: &mut State, message: TerminalEvent) -> (sent: Result<(), Error>)
        requires
            old(state).wf(),
        ensures
            exists|now: Timestamp| final(state)@ == reduce(old(state)@, message, now),
            final(state).wf(),
            published(old(state)@, message).is_none() ==> sent.is_ok(),
            hands_over(self.publisher(), old(state)@, message, sent),
    {
        let now = clock_now();
        match apply(state, message, now) {
            Some(event) => {
                let ghost handed = event;
                let sent = self.events_publisher.publish(event);
                assert(handed@ == published(old(state)@, message).unwrap()
                    && self.publisher().publishes(handed, sent));
                sent
            },
            None => Ok(()),
        }
    }
}

} // verus!
