//! The reducer for what arrives from the network.

use vstd::prelude::*;

use crate::renderer::{Message, MessageView, State, StateView};

verus! {

/// The state after a message arrived: the message stands last, nothing else
/// has changed.
pub open spec fn receive(state: StateView, message: MessageView) -> StateView {
    StateView { messages: state.messages.push(message), ..state }
}

/// Appends arrived messages to the state.
pub struct NetworkEventsHandler {}

impl NetworkEventsHandler {
    pub fn new() -> (handler: NetworkEventsHandler)
        ensures
            handler == (NetworkEventsHandler {  }),
    {
        NetworkEventsHandler {  }
    }

    /// Appends one arrived message.
    pub fn handle(&self, state: &mut State, message: Message)
        ensures
            final(state)@ == receive(old(state)@, message@),
            old(state).wf() ==> final(state).wf(),
    {
        state.messages.push(message);
        assert(state@.messages =~= old(state)@.messages.push(message@));
    }
}

} // verus!
