//! The failures that end a loop of the chat.

use vstd::prelude::*;

verus! {

/// Every failure is fatal for the loop it occurs in and travels up to the
/// orchestrator unchanged.
#[derive(Clone, Copy, Debug, PartialEq, Eq, Structural)]
pub enum Error {
    /// The backend refused to connect, to subscribe or to send.
    Transport,
    /// The backend's stream of messages has ended.
    Closed,
    /// A payload could not be decrypted.
    Decrypt,
    /// A payload could not be read as a chat message.
    MalformedMessage,
    /// The lock around the shared state was poisoned by a panic.
    LockPoison,
    /// The terminal could not be read or drawn to.
    Terminal,
}

impl Error {
    /// A short sentence for the user.
    pub fn describe(&self) -> (text: &'static str)
        ensures
            text@ == match *self {
                Error::Transport => "the message transport failed"@,
                Error::Closed => "the message transport was closed"@,
                Error::Decrypt => "a payload could not be decrypted"@,
                Error::MalformedMessage => "a payload is not a chat message"@,
                Error::LockPoison => "the shared state is poisoned"@,
                Error::Terminal => "the terminal failed"@,
            },
    {
        match self {
            Error::Transport => "the message transport failed",
            Error::Closed => "the message transport was closed",
            Error::Decrypt => "a payload could not be decrypted",
            Error::MalformedMessage => "a payload is not a chat message",
            Error::LockPoison => "the shared state is poisoned",
            Error::Terminal => "the terminal failed",
        }
    }
}

} // verus!
