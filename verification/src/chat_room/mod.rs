//! A chat room: one topic per participant under the room's name, and the
//! messages that arrive on any of them.

use vstd::prelude::*;
use vstd::std_specs::cmp::PartialEqSpecImpl;

use crate::events_reader::Duplicate;
use crate::renderer::{Message, MessageView, Timestamp};

pub mod queue_chat_room;

verus! {

/// A message as it travels through the room.
#[derive(Debug)]
pub struct ChatMessage {
    pub user: String,
    pub msg: String,
    pub time: Timestamp,
}

impl View for ChatMessage {
    type V = MessageView;

    open spec fn view(&self) -> MessageView {
        MessageView { user: self.user@, msg: self.msg@, time: self.time }
    }
}

impl Clone for ChatMessage {
    fn clone(&self) -> (copy: ChatMessage)
        ensures
            copy@ == self@,
    {
        ChatMessage { user: self.user.clone(), msg: self.msg.clone(), time: self.time }
    }
}

impl PartialEq for ChatMessage {
    fn eq(&self, other: &ChatMessage) -> (same: bool) {
        self.user == other.user && self.msg == other.msg && self.time == other.time
    }
}

impl PartialEqSpecImpl for ChatMessage {
    open spec fn obeys_eq_spec() -> bool {
        true
    }

    open spec fn eq_spec(&self, other: &ChatMessage) -> bool {
        self@ == other@
    }
}

impl Duplicate for ChatMessage {
    fn duplicate(&self) -> (copy: ChatMessage) {
        self.clone()
    }
}

impl ChatMessage {
    /// The line that the state keeps of this message.
    pub fn into_message(self) -> (message: Message)
        ensures
            message@ == self@,
    {
        Message { user: self.user, msg: self.msg, time: self.time }
    }

    /// The message that travels for a line of the state.
    pub fn from_message(message: Message) -> (chat: ChatMessage)
        ensures
            chat@ == message@,
    {
        ChatMessage { user: message.user, msg: message.msg, time: message.time }
    }
}

} // verus!
