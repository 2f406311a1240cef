//! The network as a source of events: payloads are opened and announced.

use vstd::prelude::*;

use super::{reaches_all, Duplicate, EventsReader, ReaderStep, Subscribers};
use crate::app::LoopStep;
use crate::crypto::Decrypt;
use crate::error::Error;
use crate::network::NetworkEvent;

verus! {

impl Duplicate for NetworkEvent {
    fn duplicate(&self) -> (copy: NetworkEvent) {
        self.clone()
    }
}

/// Opens what arrives from the MQTT client and announces it.
pub struct MqttEventsReader<D, S> where D: Decrypt {
    decryptor: D,
    subscribers: Subscribers<S>,
    ended: bool,
}

impl<D, S> MqttEventsReader<D, S> where D: Decrypt {
    /// The cipher that opens the payloads.
    pub closed spec fn decryptor(&self) -> D {
        self.decryptor
    }

    /// Those who have subscribed, in their order.
    pub closed spec fn subscribers(&self) -> Seq<S> {
        self.subscribers@
    }

    /// Whether the reading has ended.
    pub closed spec fn ended(&self) -> bool {
        self.ended
    }

    pub fn new(decryptor: D) -> (reader: MqttEventsReader<D, S>)
        ensures
            reader.decryptor() == decryptor,
            reader.subscribers() == Seq::<S>::empty(),
            !reader.ended(),
    {
        MqttEventsReader { decryptor, subscribers: Subscribers::new(), ended: false }
    }

    /// Registers a subscriber behind all others.
    pub fn subscribe(&mut self, callback: S)
        ensures
            final(self).subscribers() == old(self).subscribers().push(callback),
            final(self).ended() == old(self).ended(),
            final(self).decryptor() == old(self).decryptor(),
    {
        self.subscribers.subscribe(callback);
    }

    /// Takes what the client's stream gave: a payload, or nothing when the
    /// stream has ended or the connection is lost.
    ///
    /// While the reading goes on, a payload that opens is announced to every
    /// subscriber as it was before it was sealed, and the reading goes on.
    /// One that does not open is dropped and ends the reading with
    /// `Error::Decrypt`. The end of the stream ends the reading without a
    /// failure. Once the reading has ended, nothing is announced.
    pub fn on_message<'a>(&'a mut self, received: Option<Vec<u8>>) -> (step: ReaderStep<
        'a,
        S,
        NetworkEvent,
    >)
        ensures
            final(self).subscribers() == old(self).subscribers(),
            final(self).decryptor() == old(self).decryptor(),
            old(self).ended() ==> step.next == LoopStep::Finished && step.deliveries@.len() == 0
                && final(self).ended(),
            !old(self).ended() ==> match received {
                None => step.next == LoopStep::Finished && step.deliveries@.len() == 0
                    && final(self).ended(),
                Some(payload) => {
                    &&& step.next == LoopStep::Continue || step.next == LoopStep::Failed(
                        Error::Decrypt,
                    )
                    &&& final(self).ended() == (step.next != LoopStep::Continue)
                    &&& step.next == LoopStep::Continue ==> exists|plain: Seq<u8>|
                        #![trigger old(self).decryptor().opens(payload@, Some(plain))]
                        old(self).decryptor().opens(payload@, Some(plain)) && reaches_all(
                            step.deliveries@,
                            old(self).subscribers(),
                            plain,
                        )
                    &&& step.next != LoopStep::Continue ==> step.deliveries@.len() == 0
                    &&& step.next != LoopStep::Continue ==> old(self).decryptor().opens(
                        payload@,
                        None,
                    )
                },
            },
    {
        if self.ended {
            return ReaderStep { deliveries: Vec::new(), next: LoopStep::Finished };
        }
        match received {
            None => {
                self.ended = true;
                ReaderStep { deliveries: Vec::new(), next: LoopStep::Finished }
            },
            Some(payload) => match self.decryptor.decrypt(payload.as_slice()) {
                Ok(plain) => {
                    let ghost opened = plain@;
                    let event = NetworkEvent::Message(plain);
                    let deliveries = self.subscribers.fan_out(&event);
                    assert(old(self).decryptor().opens(payload@, Some(opened)) && reaches_all(
                        deliveries@,
                        old(self).subscribers(),
                        opened,
                    ));
                    ReaderStep { deliveries, next: LoopStep::Continue }
                },
                Err(_) => {
                    self.ended = true;
                    ReaderStep { deliveries: Vec::new(), next: LoopStep::Failed(Error::Decrypt) }
                },
            },
        }
    }
}

impl<D, S> EventsReader for MqttEventsReader<D, S> where D: Decrypt {
    type Message = NetworkEvent;

    type Item = Option<Vec<u8>>;

    type Subscriber = S;

    open spec fn registered(&self) -> Seq<S> {
        self.subscribers()
    }

    open spec fn stopped(&self) -> bool {
        self.ended()
    }

    fn subscribe(&mut self, callback: S) {
        self.subscribers.subscribe(callback);
    }

    fn take<'a>(&'a mut self, item: Option<Vec<u8>>) -> (step: ReaderStep<'a, S, NetworkEvent>) {
        let ghost given = item;
        let step = self.on_message(item);
        proof {
            if step.deliveries@.len() > 0 {
                let payload = given.unwrap()@;
                let plain = choose|plain: Seq<u8>|
                    #![trigger old(self).decryptor().opens(payload, Some(plain))]
                    old(self).decryptor().opens(payload, Some(plain)) && reaches_all(
                        step.deliveries@,
                        old(self).subscribers(),
                        plain,
                    );
                assert(reaches_all(step.deliveries@, old(self).registered(), plain));
            }
        }
        step
    }
}

} // verus!
