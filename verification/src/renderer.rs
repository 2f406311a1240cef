//! The state that the renderer draws: the line being composed, the cursor
//! in it, the messages of the room and the quit flag.

use vstd::prelude::*;
use vstd::std_specs::cmp::PartialEqSpecImpl;

use crate::error::Error;

verus! {

/// An instant: whole seconds since the Unix epoch and the nanoseconds into
/// that second. It does not depend on a time zone.
#[derive(Clone, Copy, Debug, PartialEq, Eq, Structural)]
pub struct Timestamp {
    pub secs: i64,
    pub nanos: u32,
}

/// Reads the clock.
///
/// Calls `chrono::Local::now` and keeps the instant as `timestamp()` and
/// `timestamp_subsec_nanos()` give it. Nothing is claimed of the result: it
/// is whatever the system clock says. The call does not return on a machine
/// whose clock stands before 1970 or whose time zone data names no local
/// time for the instant.
#[verifier::external_body]
pub(crate) fn clock_now() -> Timestamp {
    let now = chrono::Local::now();
    Timestamp { secs: now.timestamp(), nanos: now.timestamp_subsec_nanos() }
}

/// One line of the conversation.
#[derive(Debug)]
pub struct Message {
    pub user: String,
    pub msg: String,
    pub time: Timestamp,
}

/// A message as a value: the characters of its two texts and its instant.
pub struct MessageView {
    pub user: Seq<char>,
    pub msg: Seq<char>,
    pub time: Timestamp,
}

impl View for Message {
    type V = MessageView;

    open spec fn view(&self) -> MessageView {
        MessageView { user: self.user@, msg: self.msg@, time: self.time }
    }
}

impl MessageView {
    /// Two messages are the same line when user and text agree and both were
    /// written within the same second.
    pub open spec fn same_line(self, other: MessageView) -> bool {
        &&& self.user == other.user
        &&& self.msg == other.msg
        &&& self.time.secs == other.time.secs
    }
}

impl Message {
    /// The message that `user` wrote at `time`.
    pub fn at(user: String, msg: String, time: Timestamp) -> (message: Message)
        ensures
            message@ == (MessageView { user: user@, msg: msg@, time }),
    {
        Message { user, msg, time }
    }

    /// The message that `user` writes now. The instant is the clock's.
    pub fn new(user: String, msg: String) -> (message: Message)
        ensures
            message@.user == user@,
            message@.msg == msg@,
    {
        Message::at(user, msg, clock_now())
    }
}

impl Clone for Message {
    fn clone(&self) -> (copy: Message)
        ensures
            copy@ == self@,
    {
        Message { user: self.user.clone(), msg: self.msg.clone(), time: self.time }
    }
}

impl PartialEq for Message {
    fn eq(&self, other: &Message) -> (same: bool) {
        self.time.secs == other.time.secs && self.msg == other.msg && self.user == other.user
    }
}

impl PartialEqSpecImpl for Message {
    open spec fn obeys_eq_spec() -> bool {
        true
    }

    open spec fn eq_spec(&self, other: &Message) -> bool {
        self@.same_line(other@)
    }
}

/// Everything the chat knows while it runs.
///
/// `cursor` counts characters of `input_message`, not bytes.
#[derive(Debug)]
pub struct State {
    pub quit: bool,
    pub current_user: String,
    pub input_message: String,
    pub cursor: usize,
    pub messages: Vec<Message>,
}

/// A state as a value.
pub struct StateView {
    pub quit: bool,
    pub current_user: Seq<char>,
    pub input_message: Seq<char>,
    pub cursor: int,
    pub messages: Seq<MessageView>,
}

impl StateView {
    /// The cursor stands on a character of the input or just behind the last.
    pub open spec fn wf(self) -> bool {
        0 <= self.cursor <= self.input_message.len()
    }

    /// The state a session starts in, for a user of the given name.
    pub open spec fn initial(user: Seq<char>) -> StateView {
        StateView {
            quit: false,
            current_user: user,
            input_message: Seq::empty(),
            cursor: 0,
            messages: Seq::empty(),
        }
    }
}

impl View for State {
    type V = StateView;

    open spec fn view(&self) -> StateView {
        StateView {
            quit: self.quit,
            current_user: self.current_user@,
            input_message: self.input_message@,
            cursor: self.cursor as int,
            messages: self.messages@.map_values(|m: Message| m@),
        }
    }
}

impl State {
    /// The invariant of the state: the cursor lies within the input.
    pub open spec fn wf(&self) -> bool {
        self@.wf()
    }

    /// A fresh state for `current_user`.
    pub fn new(current_user: String) -> (state: State)
        ensures
            state@ == StateView::initial(current_user@),
            state.wf(),
    {
        let state = State {
            quit: false,
            current_user,
            input_message: String::new(),
            cursor: 0,
            messages: Vec::new(),
        };
        assert(state@.messages =~= Seq::empty());
        state
    }

    /// Whether the cursor lies within the input, so that the state may be
    /// handed to the reducer.
    pub fn is_wf(&self) -> (ok: bool)
        ensures
            ok == self.wf(),
    {
        self.cursor <= self.input_message.as_str().unicode_len()
    }
}

impl Default for State {
    fn default() -> (state: State)
        ensures
            state@ == StateView::initial(Seq::empty()),
            state.wf(),
    {
        State::new(String::new())
    }
}

impl Clone for State {
    fn clone(&self) -> (copy: State)
        ensures
            copy@ == self@,
    {
        let mut messages: Vec<Message> = Vec::new();
        let mut i: usize = 0;
        while i < self.messages.len()
            invariant
                i <= self.messages.len(),
                messages@.len() == i,
                forall|j: int| 0 <= j < i ==> messages@[j]@ == self.messages@[j]@,
            decreases self.messages.len() - i,
        {
            messages.push(self.messages[i].clone());
            i += 1;
        }
        let copy = State {
            quit: self.quit,
            current_user: self.current_user.clone(),
            input_message: self.input_message.clone(),
            cursor: self.cursor,
            messages,
        };
        assert(copy@.messages =~= self@.messages);
        copy
    }
}

impl PartialEq for State {
    fn eq(&self, other: &State) -> (same: bool) {
        if self.quit != other.quit || self.cursor != other.cursor {
            return false;
        }
        if self.current_user != other.current_user || self.input_message != other.input_message {
            return false;
        }
        if self.messages.len() != other.messages.len() {
            return false;
        }
        let mut i: usize = 0;
        while i < self.messages.len()
            invariant
                i <= self.messages.len(),
                self.messages.len() == other.messages.len(),
                forall|j: int| 0 <= j < i ==> self.messages@[j]@.same_line(other.messages@[j]@),
            decreases self.messages.len() - i,
        {
            if self.messages[i] != other.messages[i] {
                return false;
            }
            i += 1;
        }
        true
    }
}

impl PartialEqSpecImpl for State {
    open spec fn obeys_eq_spec() -> bool {
        true
    }

    open spec fn eq_spec(&self, other: &State) -> bool {
        &&& self.quit == other.quit
        &&& self.cursor == other.cursor
        &&& self.current_user@ == other.current_user@
        &&& self.input_message@ == other.input_message@
        &&& self.messages@.len() == other.messages@.len()
        &&& forall|j: int|
            0 <= j < self.messages@.len() ==> self.messages@[j]@.same_line(
                #[trigger] other.messages@[j]@,
            )
    }
}

/// Draws a state. The terminal behind it is the implementor's.
pub trait Renderer {
    /// Whether one draw of `state` may leave this renderer as `after` and
    /// end in `outcome`. An implementor that does not say is taken to do
    /// anything.
    open spec fn draws(&self, state: StateView, after: &Self, outcome: Result<(), Error>) -> bool {
        true
    }

    fn render(&mut self, state: &State) -> (outcome: Result<(), Error>)
        ensures
            old(self).draws(state@, &*final(self), outcome),
    ;
}

} // verus!
