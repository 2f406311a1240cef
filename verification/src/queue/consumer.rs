//! Reads text payloads from a backend and announces them as messages.

use std::string::FromUtf8Error;
use vstd::prelude::*;
use vstd::utf8::{
    decode_utf8, encode_utf8, encode_utf8_decode_utf8, encode_utf8_valid_utf8, valid_utf8,
};

use super::QueueEvent;
use crate::app::LoopStep;
use crate::error::Error;
use crate::events_reader::{reaches_all, EventsReader, ReaderStep, Subscribers};
use crate::renderer::{clock_now, Message, MessageView, Timestamp};

verus! {

/// What `String::from_utf8` returns the bytes in that are no text.
#[verifier::external_type_specification]
#[verifier::external_body]
pub struct ExFromUtf8Error(FromUtf8Error);

/// Reads bytes as text.
///
/// Calls `String::from_utf8`, which makes a string of the very bytes if
/// they are valid UTF-8 and returns an error if they are not.
#[verifier::external_body]
fn string_from_utf8(bytes: Vec<u8>) -> (text: Result<String, FromUtf8Error>)
    ensures
        match text {
            Ok(string) => encode_utf8(string@) == bytes@,
            Err(_) => !valid_utf8(bytes@),
        },
{
    String::from_utf8(bytes)
}

/// The text that the bytes spell, if they spell one.
pub fn text_of(bytes: Vec<u8>) -> (text: Option<String>)
    ensures
        match text {
            Some(string) => valid_utf8(bytes@) && string@ == decode_utf8(bytes@),
            None => !valid_utf8(bytes@),
        },
{
    match string_from_utf8(bytes) {
        Ok(string) => {
            proof {
                encode_utf8_valid_utf8(string@);
                encode_utf8_decode_utf8(string@);
            }
            Some(string)
        },
        Err(_) => None,
    }
}

/// The message that a payload announces when it arrives at `now`: its text,
/// from nobody in particular.
pub open spec fn announced_text(payload: Seq<u8>, now: Timestamp) -> MessageView {
    MessageView { user: Seq::empty(), msg: decode_utf8(payload), time: now }
}

/// Announces what a backend receives.
pub struct Consumer<Q, S> {
    network_backend: Q,
    subscribers: Subscribers<S>,
    ended: bool,
}

impl<Q, S> Consumer<Q, S> {
    /// The backend that was given to the consumer.
    pub closed spec fn backend(&self) -> Q {
        self.network_backend
    }

    /// Those who have subscribed, in their order.
    pub closed spec fn subscribers(&self) -> Seq<S> {
        self.subscribers@
    }

    /// Whether the reading has ended.
    pub closed spec fn ended(&self) -> bool {
        self.ended
    }

    pub fn new(network_backend: Q) -> (consumer: Consumer<Q, S>)
        ensures
            consumer.backend() == network_backend,
            consumer.subscribers() == Seq::<S>::empty(),
            !consumer.ended(),
    {
        Consumer { network_backend, subscribers: Subscribers::new(), ended: false }
    }

    /// The backend to receive from.
    pub fn network_backend(&mut self) -> (backend: &mut Q)
        ensures
            *backend == old(self).backend(),
            final(self).backend() == *final(backend),
            final(self).subscribers() == old(self).subscribers(),
            final(self).ended() == old(self).ended(),
    {
        &mut self.network_backend
    }

    /// Registers a subscriber behind all others.
    pub fn subscribe(&mut self, subscriber: S)
        ensures
            final(self).subscribers() == old(self).subscribers().push(subscriber),
            final(self).backend() == old(self).backend(),
            final(self).ended() == old(self).ended(),
    {
        self.subscribers.subscribe(subscriber);
    }

    /// One turn of the loop, on what the backend gave at `now`: a payload,
    /// or nothing when it has no more.
    ///
    /// While the reading goes on, a payload that is text is announced to
    /// every subscriber and the reading goes on. One that is no text ends
    /// the reading with `Error::MalformedMessage`. The end of the payloads
    /// ends it without a failure. Once it has ended, nothing is announced.
    pub fn on_received_at<'a>(&'a mut self, received: Option<Vec<u8>>, now: Timestamp) -> (step:
        ReaderStep<'a, S, QueueEvent>)
        ensures
            final(self).subscribers() == old(self).subscribers(),
            final(self).backend() == old(self).backend(),
            old(self).ended() ==> step.next == LoopStep::Finished && step.deliveries@.len() == 0
                && final(self).ended(),
            !old(self).ended() ==> match received {
                None => step.next == LoopStep::Finished && step.deliveries@.len() == 0
                    && final(self).ended(),
                Some(payload) => if valid_utf8(payload@) {
                    &&& step.next == LoopStep::Continue
                    &&& !final(self).ended()
                    &&& reaches_all(
                        step.deliveries@,
                        old(self).subscribers(),
                        announced_text(payload@, now),
                    )
                } else {
                    &&& step.next == LoopStep::Failed(Error::MalformedMessage)
                    &&& step.deliveries@.len() == 0
                    &&& final(self).ended()
                },
            },
    {
        if self.ended {
            return ReaderStep { deliveries: Vec::new(), next: LoopStep::Finished };
        }
        match received {
            None => {
                self.ended = true;
                ReaderStep { deliveries: Vec::new(), next: LoopStep::Finished }
            },
            Some(payload) => match text_of(payload) {
                Some(text) => {
                    let event = QueueEvent::Message(Message::at(String::new(), text, now));
                    let deliveries = self.subscribers.fan_out(&event);
                    ReaderStep { deliveries, next: LoopStep::Continue }
                },
                None => {
                    self.ended = true;
                    ReaderStep {
                        deliveries: Vec::new(),
                        next: LoopStep::Failed(Error::MalformedMessage),
                    }
                },
            },
        }
    }

    /// One turn of the loop, on what the backend gave just now. The instant
    /// of an announced message is the clock's; all else is as `on_received_at`
    /// says.
    pub fn on_received<'a>(&'a mut self, received: Option<Vec<u8>>) -> (step: ReaderStep<
        'a,
        S,
        QueueEvent,
    >)
        ensures
            final(self).subscribers() == old(self).subscribers(),
            final(self).backend() == old(self).backend(),
            old(self).ended() ==> step.next == LoopStep::Finished && step.deliveries@.len() == 0
                && final(self).ended(),
            !old(self).ended() ==> match received {
                None => step.next == LoopStep::Finished && step.deliveries@.len() == 0
                    && final(self).ended(),
                Some(payload) => if valid_utf8(payload@) {
                    &&& step.next == LoopStep::Continue
                    &&& !final(self).ended()
                    &&& exists|now: Timestamp|
                        reaches_all(
                            step.deliveries@,
                            old(self).subscribers(),
                            #[trigger] announced_text(payload@, now),
                        )
                } else {
                    &&& step.next == LoopStep::Failed(Error::MalformedMessage)
                    &&& step.deliveries@.len() == 0
                    &&& final(self).ended()
                },
            },
    {
        let now = clock_now();
        self.on_received_at(received, now)
    }
}

impl<Q, S> EventsReader for Consumer<Q, S> {
    type Message = QueueEvent;

    type Item = Option<Vec<u8>>;

    type Subscriber = S;

    open spec fn registered(&self) -> Seq<S> {
        self.subscribers()
    }

    open spec fn stopped(&self) -> bool {
        self.ended()
    }

    fn subscribe(&mut self, callback: S) {
        self.subscribers.subscribe(callback);
    }

    fn take<'a>(&'a mut self, item: Option<Vec<u8>>) -> (step: ReaderStep<'a, S, QueueEvent>) {
        let ghost given = item;
        let step = self.on_received(item);
        proof {
            if step.deliveries@.len() > 0 {
                let payload = given.unwrap()@;
                let now = choose|now: Timestamp|
                    reaches_all(
                        step.deliveries@,
                        old(self).subscribers(),
                        #[trigger] announced_text(payload, now),
                    );
                assert(reaches_all(
                    step.deliveries@,
                    old(self).registered(),
                    announced_text(payload, now),
                ));
            }
        }
        step
    }
}

} // verus!
