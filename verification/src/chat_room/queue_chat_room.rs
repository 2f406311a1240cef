//! A chat room on top of a queue.
//!
//! The room decides what to subscribe to, what to publish and what to make
//! of what arrives. Whoever owns the queue does the subscribing, publishing
//! and receiving, and turns bytes into messages and back.

use vstd::prelude::*;

use super::ChatMessage;
use crate::app::LoopStep;
use crate::error::Error;
use crate::events_reader::{reaches_all, EventsReader, ReaderStep, Subscribers};
use crate::network::{
    make_publish_topic, make_subscription_topic, publish_topic, subscription_topic, TOPIC_PREFIX,
};
use crate::renderer::{clock_now, MessageView, Timestamp};

verus! {

/// Where a room stands in its life.
#[derive(Clone, Copy, Debug, PartialEq, Eq, Structural)]
pub enum RoomPhase {
    /// Made, not yet subscribed to its topic.
    Created,
    /// Subscribed; nothing has arrived yet.
    Subscribed,
    /// Subscribed, and messages have arrived.
    Running,
    /// Ended for good, with the failure that ended it.
    Terminated(Error),
}

/// A message to publish, and the topic to publish it on.
#[derive(Debug)]
pub struct Outgoing {
    pub topic: String,
    pub message: ChatMessage,
}

/// What receiving on the queue gave, after the bytes were read.
#[derive(Debug)]
pub enum Arrival {
    /// A payload that is a chat message.
    Message(ChatMessage),
    /// A payload that is none.
    Malformed,
    /// No payload: the queue failed to receive.
    Failure(Error),
}

/// How a loop ends on a failure: a closed backend is the regular end, any
/// other failure is one.
pub open spec fn ends_with(error: Error) -> LoopStep {
    if error == Error::Closed {
        LoopStep::Finished
    } else {
        LoopStep::Failed(error)
    }
}

/// The phase after the queue answered the subscription.
pub open spec fn after_subscribing(phase: RoomPhase, outcome: Result<(), Error>) -> RoomPhase {
    match (phase, outcome) {
        (RoomPhase::Created, Ok(_)) => RoomPhase::Subscribed,
        (RoomPhase::Created, Err(error)) => RoomPhase::Terminated(error),
        _ => phase,
    }
}

/// The phase after something arrived. An unsubscribed room hears nothing
/// and an ended room stays ended.
pub open spec fn after_arrival(phase: RoomPhase, arrival: Arrival) -> RoomPhase {
    match phase {
        RoomPhase::Subscribed | RoomPhase::Running => match arrival {
            Arrival::Message(_) => RoomPhase::Running,
            Arrival::Malformed => RoomPhase::Terminated(Error::MalformedMessage),
            Arrival::Failure(error) => RoomPhase::Terminated(error),
        },
        _ => phase,
    }
}

/// The message that an arrival adds to the room, if any.
pub open spec fn heard(phase: RoomPhase, arrival: Arrival) -> Option<MessageView> {
    match (phase, arrival) {
        (RoomPhase::Subscribed, Arrival::Message(message)) => Some(message@),
        (RoomPhase::Running, Arrival::Message(message)) => Some(message@),
        _ => None,
    }
}

/// What the receive loop does in a phase: it goes on while the room lives
/// and ends as the failure that ended the room says.
pub open spec fn loop_step(phase: RoomPhase) -> LoopStep {
    match phase {
        RoomPhase::Terminated(error) => ends_with(error),
        _ => LoopStep::Continue,
    }
}

/// How a loop ends on a failure.
pub fn step_on(error: Error) -> (step: LoopStep)
    ensures
        step == ends_with(error),
{
    match error {
        Error::Closed => LoopStep::Finished,
        _ => LoopStep::Failed(error),
    }
}

/// A room of one user on one queue.
pub struct QueueChatRoom<Q, S> {
    queue: Q,
    topic: String,
    pattern: String,
    user_name: String,
    messages: Vec<ChatMessage>,
    subscribers: Subscribers<S>,
    phase: RoomPhase,
}

impl<Q, S> QueueChatRoom<Q, S> {
    /// The queue that the room was made on.
    pub closed spec fn queue_view(&self) -> Q {
        self.queue
    }

    /// The topic that the user publishes on.
    pub closed spec fn topic(&self) -> Seq<char> {
        self.topic@
    }

    /// The pattern that matches every participant's topic.
    pub closed spec fn pattern(&self) -> Seq<char> {
        self.pattern@
    }

    /// The user's name.
    pub closed spec fn user_name(&self) -> Seq<char> {
        self.user_name@
    }

    /// The messages heard so far, in the order of arrival.
    pub closed spec fn messages(&self) -> Seq<MessageView> {
        self.messages@.map_values(|m: ChatMessage| m@)
    }

    /// Those who asked to be told of each message, in their order.
    pub closed spec fn subscribers(&self) -> Seq<S> {
        self.subscribers@
    }

    pub closed spec fn phase(&self) -> RoomPhase {
        self.phase
    }

    /// A room under the deployment's common prefix.
    pub fn new(queue: Q, user_name: String, room_name: String) -> (room: QueueChatRoom<Q, S>)
        ensures
            room.queue_view() == queue,
            room.user_name() == user_name@,
            room.topic() == publish_topic(TOPIC_PREFIX@, room_name@, user_name@),
            room.pattern() == subscription_topic(TOPIC_PREFIX@, room_name@),
            room.messages() == Seq::<MessageView>::empty(),
            room.subscribers() == Seq::<S>::empty(),
            room.phase() == RoomPhase::Created,
    {
        QueueChatRoom::with_prefix(queue, TOPIC_PREFIX, user_name, room_name)
    }

    /// A room under a prefix of the caller's choice.
    pub fn with_prefix(queue: Q, prefix: &str, user_name: String, room_name: String) -> (room:
        QueueChatRoom<Q, S>)
        ensures
            room.queue_view() == queue,
            room.user_name() == user_name@,
            room.topic() == publish_topic(prefix@, room_name@, user_name@),
            room.pattern() == subscription_topic(prefix@, room_name@),
            room.messages() == Seq::<MessageView>::empty(),
            room.subscribers() == Seq::<S>::empty(),
            room.phase() == RoomPhase::Created,
    {
        let topic = make_publish_topic(prefix, room_name.as_str(), user_name.as_str());
        let pattern = make_subscription_topic(prefix, room_name.as_str());
        let room = QueueChatRoom {
            queue,
            topic,
            pattern,
            user_name,
            messages: Vec::new(),
            subscribers: Subscribers::new(),
            phase: RoomPhase::Created,
        };
        assert(room.messages() =~= Seq::<MessageView>::empty());
        room
    }

    pub fn queue(&self) -> (queue: &Q)
        ensures
            *queue == self.queue_view(),
    {
        &self.queue
    }

    /// The pattern to subscribe the queue to.
    pub fn subscription(&self) -> (pattern: String)
        ensures
            pattern@ == self.pattern(),
    {
        self.pattern.clone()
    }

    pub fn current_phase(&self) -> (phase: RoomPhase)
        ensures
            phase == self.phase(),
    {
        self.phase
    }

    /// Takes the queue's answer to the subscription. A refusal ends the room
    /// and is handed back.
    pub fn subscribed(&mut self, outcome: Result<(), Error>) -> (entered: Result<(), Error>)
        ensures
            final(self).phase() == after_subscribing(old(self).phase(), outcome),
            entered == match final(self).phase() {
                RoomPhase::Terminated(error) => Err::<(), Error>(error),
                _ => Ok::<(), Error>(()),
            },
            final(self).queue_view() == old(self).queue_view(),
            final(self).topic() == old(self).topic(),
            final(self).pattern() == old(self).pattern(),
            final(self).user_name() == old(self).user_name(),
            final(self).messages() == old(self).messages(),
            final(self).subscribers() == old(self).subscribers(),
    {
        match self.phase {
            RoomPhase::Created => {
                self.phase = match outcome {
                    Ok(_) => RoomPhase::Subscribed,
                    Err(error) => RoomPhase::Terminated(error),
                };
            },
            _ => {},
        }
        match self.phase {
            RoomPhase::Terminated(error) => Err(error),
            _ => Ok(()),
        }
    }

    /// What to publish for a text that the user wrote at `now`.
    pub fn send_at(&self, msg: String, now: Timestamp) -> (out: Outgoing)
        ensures
            out.topic@ == self.topic(),
            out.message@ == (MessageView { user: self.user_name(), msg: msg@, time: now }),
    {
        Outgoing {
            topic: self.topic.clone(),
            message: ChatMessage { user: self.user_name.clone(), msg, time: now },
        }
    }

    /// What to publish for a text that the user writes now. The instant is
    /// the clock's.
    pub fn send(&self, msg: String) -> (out: Outgoing)
        ensures
            out.topic@ == self.topic(),
            out.message@.user == self.user_name(),
            out.message@.msg == msg@,
    {
        self.send_at(msg, clock_now())
    }

    /// Registers a subscriber that is told of every message heard from now
    /// on, the user's own included.
    pub fn on_message(&mut self, callback: S)
        ensures
            final(self).subscribers() == old(self).subscribers().push(callback),
            final(self).queue_view() == old(self).queue_view(),
            final(self).topic() == old(self).topic(),
            final(self).pattern() == old(self).pattern(),
            final(self).user_name() == old(self).user_name(),
            final(self).messages() == old(self).messages(),
            final(self).phase() == old(self).phase(),
    {
        self.subscribers.subscribe(callback);
    }

    /// The messages heard so far.
    pub fn get_messages(&self) -> (messages: Vec<ChatMessage>)
        ensures
            messages@.map_values(|m: ChatMessage| m@) == self.messages(),
    {
        let mut messages: Vec<ChatMessage> = Vec::new();
        let mut i: usize = 0;
        while i < self.messages.len()
            invariant
                i <= self.messages@.len(),
                messages@.len() == i,
                forall|j: int| 0 <= j < i ==> messages@[j]@ == self.messages@[j]@,
            decreases self.messages@.len() - i,
        {
            messages.push(self.messages[i].clone());
            i += 1;
        }
        assert(messages@.map_values(|m: ChatMessage| m@) =~= self.messages());
        messages
    }

    /// One turn of the receive loop, on what receiving gave.
    ///
    /// A subscribed room keeps a message and tells every subscriber of it,
    /// then goes on. Bytes that are no message, and a failure to receive,
    /// end the room; the loop then ends as `ends_with` says. Before the
    /// subscription nothing is heard, and after the end nothing changes.
    pub fn received<'a>(&'a mut self, arrival: Arrival) -> (step: ReaderStep<'a, S, ChatMessage>)
        ensures
            final(self).phase() == after_arrival(old(self).phase(), arrival),
            step.next == loop_step(final(self).phase()),
            match heard(old(self).phase(), arrival) {
                Some(message) => final(self).messages() == old(self).messages().push(message)
                    && reaches_all(step.deliveries@, old(self).subscribers(), message),
                None => final(self).messages() == old(self).messages() && step.deliveries@.len()
                    == 0,
            },
            final(self).queue_view() == old(self).queue_view(),
            final(self).topic() == old(self).topic(),
            final(self).pattern() == old(self).pattern(),
            final(self).user_name() == old(self).user_name(),
            final(self).subscribers() == old(self).subscribers(),
    {
        match self.phase {
            RoomPhase::Created => ReaderStep { deliveries: Vec::new(), next: LoopStep::Continue },
            RoomPhase::Terminated(error) => ReaderStep {
                deliveries: Vec::new(),
                next: step_on(error),
            },
            _ => match arrival {
                Arrival::Message(message) => {
                    self.phase = RoomPhase::Running;
                    self.messages.push(message.clone());
                    assert(self.messages() =~= old(self).messages().push(message@));
                    let deliveries = self.subscribers.fan_out(&message);
                    ReaderStep { deliveries, next: LoopStep::Continue }
                },
                Arrival::Malformed => {
                    self.phase = RoomPhase::Terminated(Error::MalformedMessage);
                    ReaderStep {
                        deliveries: Vec::new(),
                        next: LoopStep::Failed(Error::MalformedMessage),
                    }
                },
                Arrival::Failure(error) => {
                    self.phase = RoomPhase::Terminated(error);
                    ReaderStep { deliveries: Vec::new(), next: step_on(error) }
                },
            },
        }
    }
}

impl<Q, S> EventsReader for QueueChatRoom<Q, S> {
    type Message = ChatMessage;

    type Item = Arrival;

    type Subscriber = S;

    open spec fn registered(&self) -> Seq<S> {
        self.subscribers()
    }

    open spec fn stopped(&self) -> bool {
        self.phase() is Terminated
    }

    fn subscribe(&mut self, callback: S) {
        self.on_message(callback);
    }

    fn take<'a>(&'a mut self, item: Arrival) -> (step: ReaderStep<'a, S, ChatMessage>) {
        let ghost message = heard(self.phase(), item);
        let step = self.received(item);
        proof {
            if step.deliveries@.len() > 0 {
                assert(reaches_all(step.deliveries@, old(self).registered(), message.unwrap()));
            }
        }
        step
    }
}

} // verus!
