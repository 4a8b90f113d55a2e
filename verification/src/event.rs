//! Events of a scan and the diagnostic line that each one is shown as.

use vstd::prelude::*;
use vstd::string::StringExecFns;
use crate::decimal::{decimal_digits, push_decimal};

verus! {

/// One occurrence of an unrecognized class in a scanned file.
#[derive(Clone, Debug, PartialEq, Eq)]
pub struct SearchFileEvent {
    /// The class name that was not recognized.
    pub class: String,
    /// The path of the file, as it is to be displayed.
    pub path: String,
    /// The line of the occurrence, where the source is addressable by line.
    pub line_number: Option<u64>,
}

/// What an event says, as mathematical values.
pub struct EventView {
    pub class: Seq<char>,
    pub path: Seq<char>,
    pub line_number: Option<nat>,
}

impl View for SearchFileEvent {
    type V = EventView;

    open spec fn view(&self) -> EventView {
        EventView {
            class: self.class@,
            path: self.path@,
            line_number: match self.line_number {
                Some(n) => Some(n as nat),
                None => None,
            },
        }
    }
}

/// The escape character that opens every terminal control sequence.
pub open spec fn escape() -> char {
    '\u{1b}'
}

/// Where an occurrence lies: the path, followed by a colon and the line
/// number in decimal when there is one.
pub open spec fn location_text(path: Seq<char>, line_number: Option<nat>) -> Seq<char> {
    match line_number {
        Some(n) => path + seq![':'] + decimal_digits(n),
        None => path,
    }
}

/// A terminal hyperlink to the file at `location`, displayed as `location`:
/// the opening sequence with the `file://` target, the displayed text, and
/// the closing sequence.
pub open spec fn hyperlink_text(location: Seq<char>) -> Seq<char> {
    seq![escape(), ']', '8', ';', 'i', ';', 'f', 'i', 'l', 'e', ':', '/', '/'] + location
        + seq![escape(), '\\'] + location + seq![escape(), ']', '8', ';', ';', escape(), '\\']
}

/// The diagnostic line of one occurrence: the class in double quotes, the
/// word `in`, and the hyperlinked location in double quotes.
pub open spec fn diagnostic_text(class: Seq<char>, location: Seq<char>) -> Seq<char> {
    seq!['"'] + class + seq!['"', ' ', 'i', 'n', ' ', '"'] + hyperlink_text(location) + seq!['"']
}

impl EventView {
    /// The location that the event points at.
    pub open spec fn location(self) -> Seq<char> {
        location_text(self.path, self.line_number)
    }

    /// The diagnostic line that the event is shown as.
    pub open spec fn diagnostic(self) -> Seq<char> {
        diagnostic_text(self.class, self.location())
    }
}

impl SearchFileEvent {
    /// The location of the occurrence as text.
    pub fn location(&self) -> (text: String)
        ensures
            text@ == self@.location(),
    {
        let mut text = self.path.clone();
        match self.line_number {
            Some(n) => {
                proof {
                    reveal_strlit(":");
                }
                text.append(":");
                push_decimal(&mut text, n);
                assert(text@ =~= self@.location());
            },
            None => {},
        }
        text
    }

    /// The diagnostic line of the occurrence, without a line terminator.
    pub fn diagnostic_line(&self) -> (text: String)
        ensures
            text@ == self@.diagnostic(),
    {
        let location = self.location();
        proof {
            reveal_strlit("\"");
            reveal_strlit("\" in \"\u{1b}]8;i;file://");
            reveal_strlit("\u{1b}\\");
            reveal_strlit("\u{1b}]8;;\u{1b}\\\"");
        }
        let mut text = String::from_str("\"");
        text.append(self.class.as_str());
        text.append("\" in \"\u{1b}]8;i;file://");
        text.append(location.as_str());
        text.append("\u{1b}\\");
        text.append(location.as_str());
        text.append("\u{1b}]8;;\u{1b}\\\"");
        assert(text@ =~= self@.diagnostic());
        text
    }
}

} // verus!
