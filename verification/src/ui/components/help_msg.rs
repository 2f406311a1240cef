//! The line that tells the user which keys do what.

use vstd::prelude::*;

verus! {

/// A piece of the help line and whether it is set in bold.
#[derive(Clone, Copy, Debug, PartialEq, Eq)]
pub struct HelpSpan {
    pub text: &'static str,
    pub bold: bool,
}

/// The help line.
#[derive(Clone, Copy, Debug, Default, PartialEq, Eq, Structural)]
pub struct HelpMsg {}

impl HelpMsg {
    pub fn new() -> (help: HelpMsg)
        ensures
            help == (HelpMsg {  }),
    {
        HelpMsg {  }
    }

    /// The pieces of the line, from left to right: the names of the two
    /// keys in bold, the words around them plain.
    pub fn spans(&self) -> (spans: Vec<HelpSpan>)
        ensures
            spans@.len() == 5,
            spans@[0].text@ == "Press "@ && !spans@[0].bold,
            spans@[1].text@ == "Esc"@ && spans@[1].bold,
            spans@[2].text@ == " to exit, "@ && !spans@[2].bold,
            spans@[3].text@ == "Enter"@ && spans@[3].bold,
            spans@[4].text@ == " to send the message"@ && !spans@[4].bold,
    {
        let mut spans: Vec<HelpSpan> = Vec::new();
        spans.push(HelpSpan { text: "Press ", bold: false });
        spans.push(HelpSpan { text: "Esc", bold: true });
        spans.push(HelpSpan { text: " to exit, ", bold: false });
        spans.push(HelpSpan { text: "Enter", bold: true });
        spans.push(HelpSpan { text: " to send the message", bold: false });
        spans
    }
}

} // verus!
