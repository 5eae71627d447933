//! The message translator: classify a raw driver event by its kind tag and
//! build the message a producer enqueues for it. A recognized kind that
//! arrives without its payload record is a fatal condition — no partial or
//! guessed payload is ever forwarded.

use vstd::prelude::*;
use crate::event::{
    DriverEvent, EventKind, event_well_formed, is_ctrl_kind, is_note_kind, spec_ctrl_payload,
    spec_note_payload,
};
use crate::message::Message;

verus! {

/// Why translation failed: a recognized kind arrived without the payload
/// record it promises. The offending kind tag is carried along.
#[derive(Clone, Copy, PartialEq, Eq, Structural, Debug)]
pub enum TranslateError {
    MalformedPayload(EventKind),
}

/// The message a well-formed raw event translates to: the matching tagged
/// variant around the extracted payload, or `Other` around the raw kind tag.
pub open spec fn spec_translate(ev: DriverEvent) -> Message {
    match ev.kind {
        EventKind::Note => Message::Note(spec_note_payload(ev)),
        EventKind::NoteOn => Message::NoteOn(spec_note_payload(ev)),
        EventKind::NoteOff => Message::NoteOff(spec_note_payload(ev)),
        EventKind::Controller => Message::Ctrl(spec_ctrl_payload(ev)),
        EventKind::Pitchbend => Message::Pitch(spec_ctrl_payload(ev)),
        EventKind::Other(_) => Message::Other(ev.kind),
    }
}

/// Classify one raw event. Succeeds exactly on well-formed events, with the
/// message `spec_translate` states; a recognized kind without its payload is
/// reported as malformed, naming the kind.
pub fn translate(ev: DriverEvent) -> (r: Result<Message, TranslateError>)
    ensures
        event_well_formed(ev) ==> (r matches Ok(m) && m == spec_translate(ev)),
        !event_well_formed(ev) ==> r == Err::<Message, TranslateError>(
            TranslateError::MalformedPayload(ev.kind),
        ),
{
    match ev.kind {
        EventKind::Note => match ev.note {
            Some(n) => Ok(Message::Note(n)),
            None => Err(TranslateError::MalformedPayload(ev.kind)),
        },
        EventKind::NoteOn => match ev.note {
            Some(n) => Ok(Message::NoteOn(n)),
            None => Err(TranslateError::MalformedPayload(ev.kind)),
        },
        EventKind::NoteOff => match ev.note {
            Some(n) => Ok(Message::NoteOff(n)),
            None => Err(TranslateError::MalformedPayload(ev.kind)),
        },
        EventKind::Controller => match ev.ctrl {
            Some(c) => Ok(Message::Ctrl(c)),
            None => Err(TranslateError::MalformedPayload(ev.kind)),
        },
        EventKind::Pitchbend => match ev.ctrl {
            Some(c) => Ok(Message::Pitch(c)),
            None => Err(TranslateError::MalformedPayload(ev.kind)),
        },
        EventKind::Other(_) => Ok(Message::Other(ev.kind)),
    }
}

/// Every event of the batch is well formed.
pub open spec fn all_well_formed(events: Seq<DriverEvent>) -> bool {
    forall|i: int| 0 <= i < events.len() ==> event_well_formed(events[i])
}

/// The messages a batch of well-formed events translates to, in order.
pub open spec fn spec_translate_seq(events: Seq<DriverEvent>) -> Seq<Message> {
    events.map(|i: int, ev: DriverEvent| spec_translate(ev))
}

/// Translate a batch of raw events in arrival order. A fully well-formed
/// batch yields one message per event, in order; otherwise translation stops
/// at the first malformed event and reports its kind, and nothing after it is
/// translated.
pub fn translate_events(events: &Vec<DriverEvent>) -> (r: Result<Vec<Message>, TranslateError>)
    ensures
        all_well_formed(events@) ==> (r matches Ok(msgs) && msgs@ == spec_translate_seq(events@)),
        !all_well_formed(events@) ==> (r matches Err(e) && exists|i: int|
            0 <= i < events@.len() && !event_well_formed(events@[i]) && e
                == TranslateError::MalformedPayload(events@[i].kind) && (forall|j: int|
                0 <= j < i ==> event_well_formed(events@[j]))),
{
    let mut out: Vec<Message> = Vec::new();
    let mut idx: usize = 0;
    while idx < events.len()
        invariant
            idx <= events@.len(),
            out@ == spec_translate_seq(events@.subrange(0, idx as int)),
            forall|j: int| 0 <= j < idx ==> event_well_formed(events@[j]),
        decreases events@.len() - idx,
    {
        let ev = events[idx];
        match translate(ev) {
            Ok(m) => {
                out.push(m);
                proof {
                    assert(events@.subrange(0, (idx + 1) as int) =~= events@.subrange(
                        0,
                        idx as int,
                    ).push(events@[idx as int]));
                    assert(out@ =~= spec_translate_seq(events@.subrange(0, (idx + 1) as int)));
                }
            },
            Err(e) => {
                proof {
                    assert(!event_well_formed(events@[idx as int]));
                }
                return Err(e);
            },
        }
        idx = idx + 1;
    }
    proof {
        assert(events@.subrange(0, events@.len() as int) =~= events@);
    }
    Ok(out)
}

} // verus!
