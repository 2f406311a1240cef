//! Where the reducer sends what the user submits.

use vstd::prelude::*;

use crate::error::Error;

pub mod mqtt;

verus! {

/// Takes events that are bound for the network. How they get there, and
/// whether they do, is the implementor's.
pub trait EventsPublisher {
    type Message;

    /// Whether publishing `message` may end in `outcome`. An implementor
    /// that does not say is taken to answer anything.
    open spec fn publishes(&self, message: Self::Message, outcome: Result<(), Error>) -> bool {
        true
    }

    fn publish(&self, message: Self::Message) -> (outcome: Result<(), Error>)
        ensures
            self.publishes(message, outcome),
    ;
}

} // verus!
