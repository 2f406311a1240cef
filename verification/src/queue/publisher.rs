//! Turns the messages that the user wrote into payloads for a backend.

use vstd::prelude::*;
use vstd::string::*;
use vstd::utf8::encode_utf8;

use super::QueueEvent;

verus! {

/// Sends what it is given to a backend.
pub struct Publisher<Q> {
    network_backend: Q,
}

impl<Q> Publisher<Q> {
    /// The backend that was given to the publisher.
    pub closed spec fn backend(&self) -> Q {
        self.network_backend
    }

    pub fn new(network_backend: Q) -> (publisher: Publisher<Q>)
        ensures
            publisher.backend() == network_backend,
    {
        Publisher { network_backend }
    }

    /// The backend to send on.
    pub fn network_backend(&mut self) -> (backend: &mut Q)
        ensures
            *backend == old(self).backend(),
            final(self).backend() == *final(backend),
    {
        &mut self.network_backend
    }

    /// The payload to send for an event: the text of its message as UTF-8.
    pub fn outgoing(&self, event: QueueEvent) -> (payload: Vec<u8>)
        ensures
            payload@ == encode_utf8(event@.msg),
    {
        match event {
            QueueEvent::Message(message) => message.msg.as_str().as_bytes_vec(),
        }
    }
}

} // verus!
