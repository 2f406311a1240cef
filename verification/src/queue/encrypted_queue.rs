//! A queue whose payloads are sealed on the way out and opened on the way in.

use vstd::prelude::*;

use super::queue_backend::BackendMessage;
use crate::crypto::{found, is_sealable, sealable, Decrypt, Encrypt};
use crate::error::Error;

verus! {

/// Wraps a queue and a cipher. Whoever drives the queue publishes what
/// `seal` returns and returns what `open` makes of a received payload.
#[derive(Clone)]
pub struct EncryptedQueue<Q, C> {
    queue: Q,
    crypto: C,
}

impl<Q, C> EncryptedQueue<Q, C> where C: Encrypt + Decrypt {
    /// The queue that carries the ciphertexts.
    pub closed spec fn inner(&self) -> Q {
        self.queue
    }

    /// The cipher.
    pub closed spec fn cipher(&self) -> C {
        self.crypto
    }

    pub fn new(queue: Q, crypto: C) -> (wrapped: EncryptedQueue<Q, C>)
        ensures
            wrapped.inner() == queue,
            wrapped.cipher() == crypto,
    {
        EncryptedQueue { queue, crypto }
    }

    pub fn queue(&self) -> (queue: &Q)
        ensures
            *queue == self.inner(),
    {
        &self.queue
    }

    pub fn queue_mut(&mut self) -> (queue: &mut Q)
        ensures
            *queue == old(self).inner(),
            final(self).inner() == *final(queue),
            final(self).cipher() == old(self).cipher(),
    {
        &mut self.queue
    }

    /// What to publish on the wrapped queue in place of `message`: the same
    /// topic with the payload sealed. A payload too long to seal is refused
    /// as the transport would refuse it.
    pub fn seal(&self, topic: String, message: Vec<u8>) -> (sealed: Result<BackendMessage, Error>)
        ensures
            match sealed {
                Ok(out) => {
                    &&& sealable(message@)
                    &&& out.topic@ == topic@
                    &&& self.cipher().seals(message@, out.payload@)
                },
                Err(error) => !sealable(message@) && error == Error::Transport,
            },
    {
        if !is_sealable(message.as_slice()) {
            return Err(Error::Transport);
        }
        let payload = self.crypto.encrypt(message.as_slice());
        Ok(BackendMessage { topic, payload })
    }

    /// What to make of one outcome of receiving on the wrapped queue: its
    /// failure as it is, its payload opened. A payload that does not open is
    /// dropped and gives `Error::Decrypt`.
    pub fn open(&self, received: Result<Vec<u8>, Error>) -> (opened: Result<Vec<u8>, Error>)
        ensures
            match received {
                Err(error) => opened == Err::<Vec<u8>, Error>(error),
                Ok(cipher) => {
                    &&& self.cipher().opens(cipher@, found(opened))
                    &&& opened.is_err() ==> opened == Err::<Vec<u8>, Error>(Error::Decrypt)
                },
            },
    {
        match received {
            Err(error) => Err(error),
            Ok(cipher) => match self.crypto.decrypt(cipher.as_slice()) {
                Ok(plain) => Ok(plain),
                Err(_) => Err(Error::Decrypt),
            },
        }
    }
}

} // verus!
