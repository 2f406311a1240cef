//! A publisher that seals each payload and queues it for the MQTT client.

use tokio::sync::mpsc::error::SendError;
use tokio::sync::mpsc::UnboundedSender;
use vstd::prelude::*;

use super::EventsPublisher;
use crate::crypto::{is_sealable, sealable, Encrypt};
use crate::error::Error;
use crate::network::NetworkEvent;
use crate::queue::queue_backend::BackendMessage;

verus! {

/// The sending half of tokio's unbounded channel.
#[verifier::external_type_specification]
#[verifier::external_body]
#[verifier::reject_recursive_types(T)]
pub struct ExUnboundedSender<T>(UnboundedSender<T>);

/// What tokio's channel returns a message in that it could not take.
#[verifier::external_type_specification]
#[verifier::external_body]
#[verifier::reject_recursive_types(T)]
pub struct ExSendError<T>(SendError<T>);

/// Queues a message for the task that owns the MQTT client.
///
/// Calls `UnboundedSender::send`, which never waits and fails only when the
/// receiving half is closed or dropped. Whether it is depends on the other
/// task, so nothing is claimed of the result.
#[verifier::external_body]
fn enqueue(sender: &UnboundedSender<BackendMessage>, message: BackendMessage) -> Result<
    (),
    SendError<BackendMessage>,
> {
    sender.send(message)
}

/// Publishes on one fixed topic, sealing every payload first.
pub struct MqttEventsPublisher<E> where E: Encrypt {
    topic: String,
    encryptor: E,
    sender: UnboundedSender<BackendMessage>,
}

impl<E> MqttEventsPublisher<E> where E: Encrypt {
    /// The topic that everything is published on.
    pub closed spec fn topic(&self) -> Seq<char> {
        self.topic@
    }

    /// The cipher that seals the payloads.
    pub closed spec fn encryptor(&self) -> E {
        self.encryptor
    }

    pub fn new(sender: UnboundedSender<BackendMessage>, topic: String, encryptor: E) -> (publisher:
        MqttEventsPublisher<E>)
        ensures
            publisher.topic() == topic@,
            publisher.encryptor() == encryptor,
    {
        MqttEventsPublisher { topic, encryptor, sender }
    }

    /// The message that publishing `event` hands to the MQTT client: the
    /// publisher's topic and the payload sealed. A payload too long to seal
    /// is refused.
    pub fn outgoing(&self, event: &NetworkEvent) -> (message: Result<BackendMessage, Error>)
        ensures
            match message {
                Ok(out) => {
                    &&& sealable(event@)
                    &&& out.topic@ == self.topic()
                    &&& self.encryptor().seals(event@, out.payload@)
                },
                Err(error) => !sealable(event@) && error == Error::Transport,
            },
    {
        match event {
            NetworkEvent::Message(payload) => {
                if !is_sealable(payload.as_slice()) {
                    return Err(Error::Transport);
                }
                let sealed = self.encryptor.encrypt(payload.as_slice());
                Ok(BackendMessage { topic: self.topic.clone(), payload: sealed })
            },
        }
    }
}

impl<E> EventsPublisher for MqttEventsPublisher<E> where E: Encrypt {
    type Message = NetworkEvent;

    /// A payload that cannot be sealed is refused, and every failure is
    /// `Error::Transport`. Whether a sealable payload gets through is up to
    /// the task that owns the client.
    open spec fn publishes(&self, message: NetworkEvent, outcome: Result<(), Error>) -> bool {
        &&& !sealable(message@) ==> outcome.is_err()
        &&& outcome.is_err() ==> outcome == Err::<(), Error>(Error::Transport)
    }

    /// Seals the payload and queues what `outgoing` returns. Fails, always
    /// with `Error::Transport`, when the payload cannot be sealed or the
    /// client's task is gone.
    fn publish(&self, message: NetworkEvent) -> (sent: Result<(), Error>)
        ensures
            !sealable(message@) ==> sent.is_err(),
            sent.is_err() ==> sent == Err::<(), Error>(Error::Transport),
    {
        match self.outgoing(&message) {
            Ok(out) => match enqueue(&self.sender, out) {
                Ok(()) => Ok(()),
                Err(_) => Err(Error::Transport),
            },
            Err(error) => Err(error),
        }
    }
}

} // verus!
