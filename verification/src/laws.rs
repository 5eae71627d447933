//! The properties the pipeline as a whole keeps: one line per message plus
//! the single debug line, labels and payload fields carried into the lines
//! unmodified, and a bare tag — nothing synthesized — for unrecognized kinds.

use vstd::prelude::*;
use crate::event::{
    DriverEvent, EventKind, event_well_formed, is_ctrl_kind, is_note_kind, is_recognized,
    spec_ctrl_payload, spec_note_payload,
};
use crate::message::{Message, spec_kind_label, spec_label};
use crate::numfmt::{spec_sdec, spec_udec};
use crate::logger::{
    StampedMessage, spec_ctrl_render, spec_kind_render, spec_line, spec_lines, spec_note_render,
    spec_payload_render, spec_timestamp,
};
use crate::translate::{all_well_formed, spec_translate, spec_translate_seq};

verus! {

/// `sub` occurs contiguously somewhere in `s`.
pub open spec fn has_subseq(s: Seq<char>, sub: Seq<char>) -> bool {
    exists|i: int|
        0 <= i && i + sub.len() <= s.len() && #[trigger] s.subrange(i, i + sub.len()) == sub
}

/// The middle part of a three-way concatenation occurs in the whole.
pub proof fn lemma_has_subseq_middle(x: Seq<char>, m: Seq<char>, y: Seq<char>)
    ensures
        has_subseq(x + m + y, m),
{
    let s = x + m + y;
    assert(s.subrange(x.len() as int, x.len() as int + m.len() as int) =~= m);
}

/// What occurs in `b` occurs in `a + b`.
pub proof fn lemma_has_subseq_extend_left(a: Seq<char>, b: Seq<char>, m: Seq<char>)
    requires
        has_subseq(b, m),
    ensures
        has_subseq(a + b, m),
{
    let i = choose|i: int|
        0 <= i && i + m.len() <= b.len() && #[trigger] b.subrange(i, i + m.len()) == m;
    assert((a + b).subrange(a.len() as int + i, a.len() as int + i + m.len() as int) =~= m);
}

/// For a batch of N well-formed driver events, all of recognized kinds, the
/// logger emits exactly N + 1 lines: the translator's N messages plus the one
/// debug message, arrived at whatever position `k` the race between the two
/// producers put it. Line `i` renders exactly the message and the elapsed
/// time received `i`-th, and the elapsed times — stamped in arrival order by
/// the one consumer against a monotonic clock — are non-decreasing across the
/// lines.
pub proof fn lemma_logger_emits_n_plus_one(
    events: Seq<DriverEvent>,
    dbg: Message,
    k: int,
    entries: Seq<StampedMessage>,
)
    requires
        all_well_formed(events),
        forall|i: int| 0 <= i < events.len() ==> is_recognized(#[trigger] events[i].kind),
        dbg matches Message::Debug(_),
        0 <= k <= events.len(),
        entries.map_values(|e: StampedMessage| e.msg) == spec_translate_seq(events).insert(
            k,
            dbg,
        ),
        forall|i: int, j: int|
            0 <= i <= j < entries.len() ==> entries[i].micros <= entries[j].micros,
    ensures
        spec_lines(entries).len() == events.len() + 1,
        forall|i: int|
            0 <= i < entries.len() ==> spec_lines(entries)[i] == spec_line(
                entries[i].micros,
                entries[i].msg,
            ),
        forall|i: int, j: int|
            0 <= i <= j < entries.len() ==> entries[i].micros <= entries[j].micros,
{
    assert(entries.map_values(|e: StampedMessage| e.msg).len() == entries.len());
    assert(spec_translate_seq(events).insert(k, dbg).len() == events.len() + 1);
}

/// For a message derived from a note-kind event, the line's label matches the
/// kind, its payload is the note record's rendering, and the channel, note
/// and velocity of the original event appear in the line unmodified.
pub proof fn lemma_note_line_faithful(micros: u64, ev: DriverEvent)
    requires
        is_note_kind(ev.kind),
        event_well_formed(ev),
    ensures
        spec_label(spec_translate(ev)) == spec_kind_label(ev.kind),
        spec_payload_render(spec_translate(ev)) == spec_note_render(spec_note_payload(ev)),
        has_subseq(
            spec_line(micros, spec_translate(ev)),
            spec_udec(spec_note_payload(ev).channel as nat),
        ),
        has_subseq(
            spec_line(micros, spec_translate(ev)),
            spec_udec(spec_note_payload(ev).note as nat),
        ),
        has_subseq(
            spec_line(micros, spec_translate(ev)),
            spec_udec(spec_note_payload(ev).velocity as nat),
        ),
{
    let n = spec_note_payload(ev);
    let m = spec_translate(ev);
    let p = spec_note_render(n);
    let front = "["@ + spec_timestamp(micros) + "] - "@ + spec_label(m) + " - "@;
    assert(spec_line(micros, m) =~= front + p);

    let channel_d = spec_udec(n.channel as nat);
    let note_d = spec_udec(n.note as nat);
    let velocity_d = spec_udec(n.velocity as nat);

    let after_channel = ", note="@ + note_d + ", velocity="@ + velocity_d + ", off_velocity="@
        + spec_udec(n.off_velocity as nat) + ", duration="@ + spec_udec(n.duration as nat);
    assert(p =~= "channel="@ + channel_d + after_channel);
    lemma_has_subseq_middle("channel="@, channel_d, after_channel);
    lemma_has_subseq_extend_left(front, p, channel_d);

    let before_note = "channel="@ + channel_d + ", note="@;
    let after_note = ", velocity="@ + velocity_d + ", off_velocity="@ + spec_udec(
        n.off_velocity as nat,
    ) + ", duration="@ + spec_udec(n.duration as nat);
    assert(p =~= before_note + note_d + after_note);
    lemma_has_subseq_middle(before_note, note_d, after_note);
    lemma_has_subseq_extend_left(front, p, note_d);

    let before_velocity = "channel="@ + channel_d + ", note="@ + note_d + ", velocity="@;
    let after_velocity = ", off_velocity="@ + spec_udec(n.off_velocity as nat) + ", duration="@
        + spec_udec(n.duration as nat);
    assert(p =~= before_velocity + velocity_d + after_velocity);
    lemma_has_subseq_middle(before_velocity, velocity_d, after_velocity);
    lemma_has_subseq_extend_left(front, p, velocity_d);
}

/// For a message derived from a control-kind event, the line's label matches
/// the kind, its payload is the control record's rendering, and the channel,
/// parameter and signed value of the original event appear in the line
/// unmodified.
pub proof fn lemma_ctrl_line_faithful(micros: u64, ev: DriverEvent)
    requires
        is_ctrl_kind(ev.kind),
        event_well_formed(ev),
    ensures
        spec_label(spec_translate(ev)) == spec_kind_label(ev.kind),
        spec_payload_render(spec_translate(ev)) == spec_ctrl_render(spec_ctrl_payload(ev)),
        has_subseq(
            spec_line(micros, spec_translate(ev)),
            spec_udec(spec_ctrl_payload(ev).channel as nat),
        ),
        has_subseq(
            spec_line(micros, spec_translate(ev)),
            spec_udec(spec_ctrl_payload(ev).param as nat),
        ),
        has_subseq(
            spec_line(micros, spec_translate(ev)),
            spec_sdec(spec_ctrl_payload(ev).value as int),
        ),
{
    let c = spec_ctrl_payload(ev);
    let m = spec_translate(ev);
    let p = spec_ctrl_render(c);
    let front = "["@ + spec_timestamp(micros) + "] - "@ + spec_label(m) + " - "@;
    assert(spec_line(micros, m) =~= front + p);

    let channel_d = spec_udec(c.channel as nat);
    let param_d = spec_udec(c.param as nat);
    let value_d = spec_sdec(c.value as int);

    let after_channel = ", param="@ + param_d + ", value="@ + value_d;
    assert(p =~= "channel="@ + channel_d + after_channel);
    lemma_has_subseq_middle("channel="@, channel_d, after_channel);
    lemma_has_subseq_extend_left(front, p, channel_d);

    let before_param = "channel="@ + channel_d + ", param="@;
    let after_param = ", value="@ + value_d;
    assert(p =~= before_param + param_d + after_param);
    lemma_has_subseq_middle(before_param, param_d, after_param);
    lemma_has_subseq_extend_left(front, p, param_d);

    let before_value = "channel="@ + channel_d + ", param="@ + param_d + ", value="@;
    assert(p =~= before_value + value_d + Seq::<char>::empty());
    lemma_has_subseq_middle(before_value, value_d, Seq::<char>::empty());
    lemma_has_subseq_extend_left(front, p, value_d);
}

/// For a driver event whose kind is outside the recognized set, the message
/// carries the raw kind tag alone, and the line's payload rendering is
/// exactly that tag's decimal rendering — no synthesized payload fields.
pub proof fn lemma_other_line_raw_tag(micros: u64, ev: DriverEvent, t: u32)
    requires
        ev.kind == EventKind::Other(t),
    ensures
        spec_translate(ev) == Message::Other(ev.kind),
        spec_payload_render(spec_translate(ev)) == spec_udec(t as nat),
        spec_line(micros, spec_translate(ev)) == "["@ + spec_timestamp(micros) + "] - "@
            + "Other"@ + " - "@ + spec_udec(t as nat),
{
}

} // verus!
