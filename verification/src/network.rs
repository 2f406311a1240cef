//! What travels over the transport, and the topics it travels on.

use vstd::prelude::*;
use vstd::std_specs::cmp::PartialEqSpecImpl;
use vstd::string::*;

verus! {

/// The prefix under which every room of a deployment lives. All
/// participants must share it.
pub const TOPIC_PREFIX: &'static str = "df9ff5c8-c030-4e4a-8bae-a415565febd7";

/// Something that arrived from, or is bound for, the network.
#[derive(Debug)]
pub enum NetworkEvent {
    Message(Vec<u8>),
}

impl View for NetworkEvent {
    type V = Seq<u8>;

    /// The payload that the event carries.
    open spec fn view(&self) -> Seq<u8> {
        match *self {
            NetworkEvent::Message(payload) => payload@,
        }
    }
}

impl Clone for NetworkEvent {
    fn clone(&self) -> (copy: NetworkEvent)
        ensures
            copy@ == self@,
    {
        match self {
            NetworkEvent::Message(payload) => {
                let bytes = payload.clone();
                assert(bytes@ =~= payload@);
                NetworkEvent::Message(bytes)
            },
        }
    }
}

impl PartialEq for NetworkEvent {
    fn eq(&self, other: &NetworkEvent) -> (same: bool) {
        match (self, other) {
            (NetworkEvent::Message(mine), NetworkEvent::Message(theirs)) => {
                let same = mine == theirs;
                assert(same == (mine@ =~= theirs@));
                same
            },
        }
    }
}

impl PartialEqSpecImpl for NetworkEvent {
    open spec fn obeys_eq_spec() -> bool {
        true
    }

    open spec fn eq_spec(&self, other: &NetworkEvent) -> bool {
        self@ == other@
    }
}

/// `<prefix>/<room>`: the topic that a room's traffic lives under.
pub open spec fn room_topic(prefix: Seq<char>, room: Seq<char>) -> Seq<char> {
    prefix + seq!['/'] + room
}

/// `<prefix>/<room>/#`: the pattern that matches every participant of a room.
pub open spec fn subscription_topic(prefix: Seq<char>, room: Seq<char>) -> Seq<char> {
    room_topic(prefix, room) + seq!['/', '#']
}

/// `<prefix>/<room>/<identity>`: the topic that one participant publishes on.
pub open spec fn publish_topic(prefix: Seq<char>, room: Seq<char>, identity: Seq<char>) -> Seq<
    char,
> {
    room_topic(prefix, room) + seq!['/'] + identity
}

/// The pattern to subscribe to in order to hear a room.
pub fn make_subscription_topic(prefix: &str, room: &str) -> (topic: String)
    ensures
        topic@ == subscription_topic(prefix@, room@),
{
    proof {
        reveal_strlit("/");
        reveal_strlit("/#");
    }
    let mut topic = String::from_str(prefix);
    topic.append("/");
    topic.append(room);
    topic.append("/#");
    assert(topic@ =~= subscription_topic(prefix@, room@));
    topic
}

/// The topic on which `identity` speaks in a room.
pub fn make_publish_topic(prefix: &str, room: &str, identity: &str) -> (topic: String)
    ensures
        topic@ == publish_topic(prefix@, room@, identity@),
{
    proof {
        reveal_strlit("/");
    }
    let mut topic = String::from_str(prefix);
    topic.append("/");
    topic.append(room);
    topic.append("/");
    topic.append(identity);
    assert(topic@ =~= publish_topic(prefix@, room@, identity@));
    topic
}

} // verus!
