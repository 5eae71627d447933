//! The closed tagged union that travels through the channel: one classified
//! event, or the one-shot debug note, owned by the channel until the logger
//! receives it.

use vstd::prelude::*;
use vstd::string::*;
use crate::event::{NoteEvent, CtrlEvent, EventKind};

verus! {

/// One classified event or debug note, as a producer enqueues it.
#[derive(Debug, PartialEq)]
pub enum Message {
    Debug(String),
    Note(NoteEvent),
    NoteOn(NoteEvent),
    NoteOff(NoteEvent),
    Ctrl(CtrlEvent),
    Pitch(CtrlEvent),
    Other(EventKind),
}

/// The label under which a message's tag appears in its log line.
pub open spec fn spec_label(m: Message) -> Seq<char> {
    match m {
        Message::Debug(_) => "Debug"@,
        Message::Note(_) => "Note"@,
        Message::NoteOn(_) => "NoteOn"@,
        Message::NoteOff(_) => "NoteOff"@,
        Message::Ctrl(_) => "Ctrl"@,
        Message::Pitch(_) => "Pitch"@,
        Message::Other(_) => "Other"@,
    }
}

/// The label a recognized kind's message carries; an unrecognized kind's
/// message is labeled `Other`.
pub open spec fn spec_kind_label(k: EventKind) -> Seq<char> {
    match k {
        EventKind::Note => "Note"@,
        EventKind::NoteOn => "NoteOn"@,
        EventKind::NoteOff => "NoteOff"@,
        EventKind::Controller => "Ctrl"@,
        EventKind::Pitchbend => "Pitch"@,
        EventKind::Other(_) => "Other"@,
    }
}

/// The label of a message's tag, as `spec_label` states it.
pub fn label(m: &Message) -> (r: &'static str)
    ensures
        r@ == spec_label(*m),
{
    match m {
        Message::Debug(_) => "Debug",
        Message::Note(_) => "Note",
        Message::NoteOn(_) => "NoteOn",
        Message::NoteOff(_) => "NoteOff",
        Message::Ctrl(_) => "Ctrl",
        Message::Pitch(_) => "Pitch",
        Message::Other(_) => "Other",
    }
}

/// The single fixed message the one-shot debug producer sends.
pub fn hello_message() -> (m: Message)
    ensures
        m matches Message::Debug(t) && t@ == "Hello, world!"@,
{
    Message::Debug(String::from_str("Hello, world!"))
}

} // verus!
