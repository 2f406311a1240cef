//! Queues of byte payloads on named topics.
//!
//! The transport itself is the application's. This module decides what is
//! handed to it and what is made of the bytes it hands back.

use vstd::prelude::*;
use vstd::std_specs::cmp::PartialEqSpecImpl;

use crate::error::Error;
use crate::events_reader::Duplicate;
use crate::renderer::{Message, MessageView};

pub mod consumer;
pub mod encrypted_queue;
pub mod publisher;
pub mod queue_backend;

verus! {

/// What receiving on a transport amounts to: the payload that its stream
/// gave, or `Error::Closed` when the stream has ended or the connection is
/// lost.
pub fn receive_outcome(next: Option<Vec<u8>>) -> (received: Result<Vec<u8>, Error>)
    ensures
        received == match next {
            Some(payload) => Ok::<Vec<u8>, Error>(payload),
            None => Err::<Vec<u8>, Error>(Error::Closed),
        },
{
    match next {
        Some(payload) => Ok(payload),
        None => Err(Error::Closed),
    }
}

/// What travels between a queue and those who listen to it.
#[derive(Debug)]
pub enum QueueEvent {
    Message(Message),
}

impl View for QueueEvent {
    type V = MessageView;

    /// The message that the event carries.
    open spec fn view(&self) -> MessageView {
        match *self {
            QueueEvent::Message(message) => message@,
        }
    }
}

impl Clone for QueueEvent {
    fn clone(&self) -> (copy: QueueEvent)
        ensures
            copy@ == self@,
    {
        match self {
            QueueEvent::Message(message) => QueueEvent::Message(message.clone()),
        }
    }
}

impl PartialEq for QueueEvent {
    fn eq(&self, other: &QueueEvent) -> (same: bool) {
        match (self, other) {
            (QueueEvent::Message(mine), QueueEvent::Message(theirs)) => mine == theirs,
        }
    }
}

impl PartialEqSpecImpl for QueueEvent {
    open spec fn obeys_eq_spec() -> bool {
        true
    }

    open spec fn eq_spec(&self, other: &QueueEvent) -> bool {
        self@.same_line(other@)
    }
}

impl Duplicate for QueueEvent {
    fn duplicate(&self) -> (copy: QueueEvent) {
        self.clone()
    }
}

} // verus!
