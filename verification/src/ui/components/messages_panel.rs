//! The panel that lists the messages of the room.

use rand::Rng;
use rand_pcg::Pcg64;
use rand_seeder::Seeder;
use vstd::prelude::*;

use crate::chat_room::ChatMessage;
use crate::renderer::Timestamp;

verus! {

/// A colour by its red, green and blue parts.
#[derive(Clone, Copy, Debug, PartialEq, Eq, Structural)]
pub struct Rgb {
    pub r: u8,
    pub g: u8,
    pub b: u8,
}

/// The colour that a name is shown in.
pub uninterp spec fn name_colour(name: Seq<char>) -> Rgb;

/// Picks the colour of a name.
///
/// Calls `Seeder::from` with the name, `Seeder::make_rng` for a `Pcg64` and
/// `Rng::gen` for three bytes. The seeder hashes the name into the seed, so
/// the colour is a function of the name alone.
#[verifier::external_body]
fn get_rbg(data: &str) -> (colour: Rgb)
    ensures
        colour == name_colour(data@),
{
    let mut rng: Pcg64 = Seeder::from(data).make_rng();
    let (r, g, b) = rng.gen();
    Rgb { r, g, b }
}

/// One line of the panel: when, who in which colour, and what.
#[derive(Debug)]
pub struct MessageLine {
    pub time: Timestamp,
    pub user: String,
    pub colour: Rgb,
    pub msg: String,
}

/// The line that shows a message.
pub open spec fn shows(line: MessageLine, message: ChatMessage) -> bool {
    &&& line.time == message.time
    &&& line.user@ == message.user@
    &&& line.colour == name_colour(message.user@)
    &&& line.msg@ == message.msg@
}

/// The list of messages, and the room they come from.
#[derive(Clone, Debug, Default)]
pub struct MessagesPanel<C> {
    chat_room: C,
}

impl<C> MessagesPanel<C> {
    /// The room that was given to the panel.
    pub closed spec fn room(&self) -> C {
        self.chat_room
    }

    pub fn new(chat_room: C) -> (panel: MessagesPanel<C>)
        ensures
            panel.room() == chat_room,
    {
        MessagesPanel { chat_room }
    }

    /// The room to ask for the messages.
    pub fn chat_room(&self) -> (room: &C)
        ensures
            *room == self.room(),
    {
        &self.chat_room
    }

    /// The lines to draw for the messages: one for each, in their order,
    /// every user in the colour of the name.
    pub fn lines(&self, messages: &Vec<ChatMessage>) -> (lines: Vec<MessageLine>)
        ensures
            lines@.len() == messages@.len(),
            forall|i: int| 0 <= i < lines@.len() ==> shows(#[trigger] lines@[i], messages@[i]),
    {
        let mut lines: Vec<MessageLine> = Vec::new();
        let mut i: usize = 0;
        while i < messages.len()
            invariant
                i <= messages@.len(),
                lines@.len() == i,
                forall|j: int| 0 <= j < i ==> shows(#[trigger] lines@[j], messages@[j]),
            decreases messages@.len() - i,
        {
            let message = &messages[i];
            let colour = get_rbg(message.user.as_str());
            lines.push(
                MessageLine {
                    time: message.time,
                    user: message.user.clone(),
                    colour,
                    msg: message.msg.clone(),
                },
            );
            i += 1;
        }
        lines
    }
}

} // verus!
