//! The unit that the transport carries.

use vstd::prelude::*;
use vstd::std_specs::cmp::PartialEqSpecImpl;

verus! {

/// A payload and the topic it is sent on or arrived on.
#[derive(Debug)]
pub struct BackendMessage {
    pub topic: String,
    pub payload: Vec<u8>,
}

impl View for BackendMessage {
    type V = (Seq<char>, Seq<u8>);

    /// The topic's characters and the payload's bytes.
    open spec fn view(&self) -> (Seq<char>, Seq<u8>) {
        (self.topic@, self.payload@)
    }
}

impl Clone for BackendMessage {
    fn clone(&self) -> (copy: BackendMessage)
        ensures
            copy@ == self@,
    {
        let payload = self.payload.clone();
        assert(payload@ =~= self.payload@);
        BackendMessage { topic: self.topic.clone(), payload }
    }
}

impl PartialEq for BackendMessage {
    fn eq(&self, other: &BackendMessage) -> (same: bool) {
        let same_payload = self.payload == other.payload;
        assert(same_payload == (self.payload@ =~= other.payload@));
        self.topic == other.topic && same_payload
    }
}

impl PartialEqSpecImpl for BackendMessage {
    open spec fn obeys_eq_spec() -> bool {
        true
    }

    open spec fn eq_spec(&self, other: &BackendMessage) -> bool {
        self@ == other@
    }
}

} // verus!
