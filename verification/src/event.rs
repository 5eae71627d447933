//! The raw events the sequencer driver hands over: a category tag plus the
//! fixed-shape payload records the driver could extract for it.

use vstd::prelude::*;

verus! {

/// Fixed-shape note payload, copied by value from the driver's note record.
#[derive(Clone, Copy, PartialEq, Eq, Structural, Debug)]
pub struct NoteEvent {
    pub channel: u8,
    pub note: u8,
    pub velocity: u8,
    pub off_velocity: u8,
    pub duration: u32,
}

/// Fixed-shape control payload, copied by value from the driver's control
/// record; `value` is signed (a pitch bend swings below zero).
#[derive(Clone, Copy, PartialEq, Eq, Structural, Debug)]
pub struct CtrlEvent {
    pub channel: u8,
    pub param: u32,
    pub value: i32,
}

/// The driver's category tag for a raw event. The five recognized categories
/// are named; any other category carries its raw numeric tag unchanged.
#[derive(Clone, Copy, PartialEq, Eq, Structural, Debug)]
pub enum EventKind {
    Note,
    NoteOn,
    NoteOff,
    Controller,
    Pitchbend,
    Other(u32),
}

/// One raw event as read from the driver: its kind tag and whichever payload
/// records the driver extracted for it.
#[derive(Clone, Copy, Debug)]
pub struct DriverEvent {
    pub kind: EventKind,
    pub note: Option<NoteEvent>,
    pub ctrl: Option<CtrlEvent>,
}

/// The kinds that carry a note payload.
pub open spec fn is_note_kind(k: EventKind) -> bool {
    k == EventKind::Note || k == EventKind::NoteOn || k == EventKind::NoteOff
}

/// The kinds that carry a control payload.
pub open spec fn is_ctrl_kind(k: EventKind) -> bool {
    k == EventKind::Controller || k == EventKind::Pitchbend
}

/// The closed set of kinds the translator extracts a payload for.
pub open spec fn is_recognized(k: EventKind) -> bool {
    is_note_kind(k) || is_ctrl_kind(k)
}

/// A raw event is well formed when each recognized kind comes with the
/// payload record it promises; a kind outside the set needs none.
pub open spec fn event_well_formed(ev: DriverEvent) -> bool {
    &&& is_note_kind(ev.kind) ==> ev.note is Some
    &&& is_ctrl_kind(ev.kind) ==> ev.ctrl is Some
}

/// The note payload of a well-formed note-kind event.
pub open spec fn spec_note_payload(ev: DriverEvent) -> NoteEvent {
    match ev.note {
        Option::Some(n) => n,
        Option::None => NoteEvent { channel: 0, note: 0, velocity: 0, off_velocity: 0, duration: 0 },
    }
}

/// The control payload of a well-formed control-kind event.
pub open spec fn spec_ctrl_payload(ev: DriverEvent) -> CtrlEvent {
    match ev.ctrl {
        Option::Some(c) => c,
        Option::None => CtrlEvent { channel: 0, param: 0, value: 0 },
    }
}

} // verus!
