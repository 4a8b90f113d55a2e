//! Text that a sink asks its caller to print.

use vstd::prelude::*;

verus! {

/// The output stream that a message is meant for.
#[derive(Clone, Copy, Debug, PartialEq, Eq, Structural)]
pub enum Stream {
    /// Standard output.
    Stdout,
    /// Standard error.
    Stderr,
}

/// One line of output: its text, without a line terminator, and the stream
/// it belongs on.
#[derive(Clone, Debug, PartialEq, Eq)]
pub struct Message {
    pub stream: Stream,
    pub text: String,
}

/// A message as mathematical values.
pub struct MessageView {
    pub stream: Stream,
    pub text: Seq<char>,
}

impl View for Message {
    type V = MessageView;

    open spec fn view(&self) -> MessageView {
        MessageView { stream: self.stream, text: self.text@ }
    }
}

/// The view of a message that may be absent.
pub open spec fn view_of(message: Option<Message>) -> Option<MessageView> {
    match message {
        Some(m) => Some(m@),
        None => None,
    }
}

} // verus!
