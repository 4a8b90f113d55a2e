//! The console sink: what it prints for each event and which verdict it
//! reaches at the end of a scan.

use vstd::prelude::*;
use vstd::string::StringExecFns;
use crate::event::{EventView, SearchFileEvent};
use crate::message::{view_of, Message, MessageView, Stream};

verus! {

/// The summary line of a scan in which no event arrived.
pub open spec fn all_valid_text() -> Seq<char> {
    seq![
        'C', 'l', 'a', 's', 's', 'e', 's', ' ', 'a', 'r', 'e', ' ', 'a', 'l', 'l', ' ', 'v', 'a',
        'l', 'i', 'd',
    ]
}

/// The summary line of a scan in which at least one event arrived.
pub open spec fn unknown_found_text() -> Seq<char> {
    seq![
        'U', 'n', 'k', 'n', 'o', 'w', 'n', ' ', 'c', 'l', 'a', 's', 's', 'e', 's', ' ', 'f', 'o',
        'u', 'n', 'd',
    ]
}

/// The summary that closes a scan: nothing when quiet, else the success
/// line on standard output or the failure line on standard error.
pub open spec fn summary_of(quiet: bool, valid: bool) -> Option<MessageView> {
    if quiet {
        None
    } else if valid {
        Some(MessageView { stream: Stream::Stdout, text: all_valid_text() })
    } else {
        Some(MessageView { stream: Stream::Stderr, text: unknown_found_text() })
    }
}

/// The state of a console sink: its configuration and whether the scan is
/// still free of events.
pub struct ConsoleState {
    pub quiet: bool,
    pub valid: bool,
}

impl ConsoleState {
    /// The state of a sink that has seen nothing yet.
    pub open spec fn initial(quiet: bool) -> ConsoleState {
        ConsoleState { quiet, valid: true }
    }

    /// The state after one more event: invalid, whatever it was before.
    pub open spec fn after_event(self) -> ConsoleState {
        ConsoleState { quiet: self.quiet, valid: false }
    }

    /// The state after a run of events.
    pub open spec fn after_events(self, events: Seq<EventView>) -> ConsoleState
        decreases events.len(),
    {
        if events.len() == 0 {
            self
        } else {
            self.after_events(events.drop_last()).after_event()
        }
    }

    /// What is printed for one event: nothing when quiet, else its
    /// diagnostic line on standard error.
    pub open spec fn diagnostic(self, event: EventView) -> Option<MessageView> {
        if self.quiet {
            None
        } else {
            Some(MessageView { stream: Stream::Stderr, text: event.diagnostic() })
        }
    }

    /// What is printed for a run of events, in the order of arrival.
    pub open spec fn diagnostics(self, events: Seq<EventView>) -> Seq<MessageView>
        decreases events.len(),
    {
        if events.len() == 0 {
            Seq::empty()
        } else {
            let earlier = self.diagnostics(events.drop_last());
            match self.after_events(events.drop_last()).diagnostic(events.last()) {
                Some(m) => earlier.push(m),
                None => earlier,
            }
        }
    }

    /// The verdict of a scan that ends in this state.
    pub open spec fn verdict(self) -> bool {
        self.valid
    }

    /// The summary of a scan that ends in this state.
    pub open spec fn summary(self) -> Option<MessageView> {
        summary_of(self.quiet, self.valid)
    }

    /// Everything printed by a scan that starts in this state, receives
    /// `events` and is then closed.
    pub open spec fn transcript(self, events: Seq<EventView>) -> Seq<MessageView> {
        let printed = self.diagnostics(events);
        match self.after_events(events).summary() {
            Some(m) => printed.push(m),
            None => printed,
        }
    }
}

/// The summary that closes a scan with the given configuration and flag.
pub fn summary(quiet: bool, valid: bool) -> (message: Option<Message>)
    ensures
        view_of(message) == summary_of(quiet, valid),
{
    if quiet {
        None
    } else if valid {
        proof {
            reveal_strlit("Classes are all valid");
        }
        let text = String::from_str("Classes are all valid");
        assert(text@ =~= all_valid_text());
        Some(Message { stream: Stream::Stdout, text })
    } else {
        proof {
            reveal_strlit("Unknown classes found");
        }
        let text = String::from_str("Unknown classes found");
        assert(text@ =~= unknown_found_text());
        Some(Message { stream: Stream::Stderr, text })
    }
}

/// A console sink. It starts valid, turns invalid with the first event it
/// receives, and never turns back. It is deliberately neither `Clone` nor
/// `Copy`: closing a scan with `done` uses the sink up.
#[derive(Debug)]
pub struct Console {
    quiet: bool,
    valid: bool,
}

impl View for Console {
    type V = ConsoleState;

    closed spec fn view(&self) -> ConsoleState {
        ConsoleState { quiet: self.quiet, valid: self.valid }
    }
}

impl Console {
    /// A sink that has seen no event. When `quiet`, it asks for no output.
    #[must_use]
    pub fn new(quiet: bool) -> (console: Console)
        ensures
            console@ == ConsoleState::initial(quiet),
    {
        Console { quiet, valid: true }
    }

    /// Whether the sink suppresses its output.
    pub fn is_quiet(&self) -> (quiet: bool)
        ensures
            quiet == self@.quiet,
    {
        self.quiet
    }

    /// Whether no event has been received so far.
    pub fn is_valid(&self) -> (valid: bool)
        ensures
            valid == self@.valid,
    {
        self.valid
    }

    /// Takes one event: the sink is invalid from now on, and the result is
    /// the line to print for the event, if any.
    pub fn receive(&mut self, event: &SearchFileEvent) -> (message: Option<Message>)
        ensures
            final(self)@ == old(self)@.after_event(),
            view_of(message) == old(self)@.diagnostic(event@),
    {
        if self.valid {
            self.valid = false;
        }
        if self.quiet {
            None
        } else {
            Some(Message { stream: Stream::Stderr, text: event.diagnostic_line() })
        }
    }

    /// Closes the scan: the verdict, `true` exactly when no event was
    /// received, and the summary line to print, if any.
    pub fn done(self) -> (outcome: (bool, Option<Message>))
        ensures
            outcome.0 == self@.verdict(),
            view_of(outcome.1) == self@.summary(),
    {
        (self.valid, summary(self.quiet, self.valid))
    }
}

} // verus!
