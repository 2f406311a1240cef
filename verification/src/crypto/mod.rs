//! What the chat asks of a cipher: sealing never fails, opening fails on
//! anything that was not sealed with the same secret, and what was sealed
//! opens to what it was.

use vstd::prelude::*;

use crate::error::Error;

pub mod magic_crypt;

verus! {

/// Whether a payload is short enough to be sealed: the ciphertext is up to
/// sixteen bytes longer and must fit in one allocation.
pub open spec fn sealable(data: Seq<u8>) -> bool {
    data.len() + 16 <= isize::MAX
}

/// Tests `sealable` at run time.
pub fn is_sealable(data: &[u8]) -> (fits: bool)
    ensures
        fits == sealable(data@),
{
    data.len() <= (isize::MAX as usize) - 16
}

/// What a call of `decrypt` found: the payload, or nothing where the bytes
/// did not open.
pub open spec fn found(outcome: Result<Vec<u8>, Error>) -> Option<Seq<u8>> {
    match outcome {
        Ok(bytes) => Some(bytes@),
        Err(_) => None,
    }
}

/// Turns a payload into a ciphertext.
pub trait Encrypt {
    /// Whether `cipher` is a ciphertext that this value may produce for
    /// `plain`. An implementor that does not say is taken to produce
    /// anything.
    open spec fn seals(&self, plain: Seq<u8>, cipher: Seq<u8>) -> bool {
        true
    }

    fn encrypt(&self, data: &[u8]) -> (cipher: Vec<u8>)
        requires
            sealable(data@),
        ensures
            self.seals(data@, cipher@),
    ;
}

/// Turns a ciphertext back into the payload.
pub trait Decrypt {
    /// Whether this value may find `plain` in `cipher`, where nothing stands
    /// for bytes that do not open. An implementor that does not say is taken
    /// to find anything.
    open spec fn opens(&self, cipher: Seq<u8>, plain: Option<Seq<u8>>) -> bool {
        true
    }

    fn decrypt(&self, data: &[u8]) -> (plain: Result<Vec<u8>, Error>)
        ensures
            self.opens(data@, found(plain)),
    ;
}

/// A cipher that reads what it wrote.
pub trait Crypto: Encrypt + Decrypt {
    /// Whatever was sealed opens, and to the payload it was made from.
    proof fn round_trip(&self, plain: Seq<u8>, cipher: Seq<u8>, opened: Option<Seq<u8>>)
        requires
            self.seals(plain, cipher),
            self.opens(cipher, opened),
        ensures
            opened == Some(plain),
    ;
}

} // verus!
