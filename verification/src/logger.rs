//! The event logger: render one formatted log line per message, carrying the
//! elapsed time since process start, the tag's label, and a readable
//! rendering of the payload. Elapsed time is carried as whole microseconds
//! and shown as seconds with a fixed six-decimal fraction, right-aligned to
//! at least twelve characters.

use vstd::prelude::*;
use vstd::string::*;
use crate::event::{NoteEvent, CtrlEvent, EventKind};
use crate::message::{Message, label, spec_label};
use crate::numfmt::{
    i32_to_string, lemma_udec_len_le, repeat_str, spec_pow10, spec_repeat, spec_sdec, spec_udec,
    u64_to_string,
};

verus! {

/// Microseconds per second: the fraction shown has exactly six digits.
pub const MICROS_PER_SECOND: u64 = 1000000;

/// The elapsed-time field: whole seconds, a dot, the microsecond remainder
/// zero-padded to six digits, the whole right-aligned with spaces to twelve
/// characters.
pub open spec fn spec_timestamp(micros: u64) -> Seq<char> {
    let secs = micros as nat / 1000000;
    let frac = micros as nat % 1000000;
    let digits = spec_udec(secs) + seq!['.'] + spec_repeat(
        '0',
        (6 - spec_udec(frac).len()) as nat,
    ) + spec_udec(frac);
    spec_repeat(' ', if digits.len() < 12 { (12 - digits.len()) as nat } else { 0 as nat })
        + digits
}

/// The rendering of a note payload: each field of the driver's note record,
/// named and unmodified.
pub open spec fn spec_note_render(n: NoteEvent) -> Seq<char> {
    "channel="@ + spec_udec(n.channel as nat) + ", note="@ + spec_udec(n.note as nat)
        + ", velocity="@ + spec_udec(n.velocity as nat) + ", off_velocity="@ + spec_udec(
        n.off_velocity as nat,
    ) + ", duration="@ + spec_udec(n.duration as nat)
}

/// The rendering of a control payload: each field of the driver's control
/// record, named and unmodified.
pub open spec fn spec_ctrl_render(c: CtrlEvent) -> Seq<char> {
    "channel="@ + spec_udec(c.channel as nat) + ", param="@ + spec_udec(c.param as nat)
        + ", value="@ + spec_sdec(c.value as int)
}

/// The rendering of a raw kind tag: the recognized kinds by name, any other
/// kind as its raw numeric tag and nothing else.
pub open spec fn spec_kind_render(k: EventKind) -> Seq<char> {
    match k {
        EventKind::Note => "Note"@,
        EventKind::NoteOn => "NoteOn"@,
        EventKind::NoteOff => "NoteOff"@,
        EventKind::Controller => "Controller"@,
        EventKind::Pitchbend => "Pitchbend"@,
        EventKind::Other(t) => spec_udec(t as nat),
    }
}

/// The payload part of a message's log line: the debug text itself, a
/// payload record rendering, or the raw kind tag.
pub open spec fn spec_payload_render(m: Message) -> Seq<char> {
    match m {
        Message::Debug(t) => t@,
        Message::Note(n) => spec_note_render(n),
        Message::NoteOn(n) => spec_note_render(n),
        Message::NoteOff(n) => spec_note_render(n),
        Message::Ctrl(c) => spec_ctrl_render(c),
        Message::Pitch(c) => spec_ctrl_render(c),
        Message::Other(k) => spec_kind_render(k),
    }
}

/// One full log line: bracketed elapsed time, the tag's label, the payload.
pub open spec fn spec_line(micros: u64, m: Message) -> Seq<char> {
    "["@ + spec_timestamp(micros) + "] - "@ + spec_label(m) + " - "@ + spec_payload_render(m)
}

/// The elapsed-time field, exactly as `spec_timestamp` states it.
pub fn format_timestamp(micros: u64) -> (s: String)
    ensures
        s@ == spec_timestamp(micros),
{
    let secs: u64 = micros / MICROS_PER_SECOND;
    let frac: u64 = micros % MICROS_PER_SECOND;
    proof {
        assert(spec_pow10(0) == 1);
        assert(spec_pow10(1) == 10);
        assert(spec_pow10(2) == 100);
        assert(spec_pow10(3) == 1000);
        assert(spec_pow10(4) == 10000);
        assert(spec_pow10(5) == 100000);
        assert(spec_pow10(6) == 1000000);
        lemma_udec_len_le(frac as nat, 6);
        reveal_strlit(".");
        reveal_strlit("0");
        reveal_strlit(" ");
    }
    let mut digits = u64_to_string(secs);
    digits.append(".");
    let frac_s = u64_to_string(frac);
    let frac_len = frac_s.as_str().unicode_len();
    let zeros = repeat_str("0", 6 - frac_len);
    digits.append(zeros.as_str());
    digits.append(frac_s.as_str());
    let width = digits.as_str().unicode_len();
    let pad: usize = if width < 12 {
        12 - width
    } else {
        0
    };
    let mut s = repeat_str(" ", pad);
    s.append(digits.as_str());
    proof {
        assert("."@ =~= seq!['.']);
        assert(s@ =~= spec_timestamp(micros));
    }
    s
}

/// The note payload rendering, exactly as `spec_note_render` states it.
pub fn render_note(n: &NoteEvent) -> (s: String)
    ensures
        s@ == spec_note_render(*n),
{
    let mut s = String::from_str("channel=");
    let channel_s = u64_to_string(n.channel as u64);
    s.append(channel_s.as_str());
    s.append(", note=");
    let note_s = u64_to_string(n.note as u64);
    s.append(note_s.as_str());
    s.append(", velocity=");
    let velocity_s = u64_to_string(n.velocity as u64);
    s.append(velocity_s.as_str());
    s.append(", off_velocity=");
    let off_velocity_s = u64_to_string(n.off_velocity as u64);
    s.append(off_velocity_s.as_str());
    s.append(", duration=");
    let duration_s = u64_to_string(n.duration as u64);
    s.append(duration_s.as_str());
    proof {
        assert(s@ =~= spec_note_render(*n));
    }
    s
}

/// The control payload rendering, exactly as `spec_ctrl_render` states it.
pub fn render_ctrl(c: &CtrlEvent) -> (s: String)
    ensures
        s@ == spec_ctrl_render(*c),
{
    let mut s = String::from_str("channel=");
    let channel_s = u64_to_string(c.channel as u64);
    s.append(channel_s.as_str());
    s.append(", param=");
    let param_s = u64_to_string(c.param as u64);
    s.append(param_s.as_str());
    s.append(", value=");
    let value_s = i32_to_string(c.value);
    s.append(value_s.as_str());
    proof {
        assert(s@ =~= spec_ctrl_render(*c));
    }
    s
}

/// The raw kind tag rendering, exactly as `spec_kind_render` states it.
pub fn render_kind(k: &EventKind) -> (s: String)
    ensures
        s@ == spec_kind_render(*k),
{
    match k {
        EventKind::Note => String::from_str("Note"),
        EventKind::NoteOn => String::from_str("NoteOn"),
        EventKind::NoteOff => String::from_str("NoteOff"),
        EventKind::Controller => String::from_str("Controller"),
        EventKind::Pitchbend => String::from_str("Pitchbend"),
        EventKind::Other(t) => u64_to_string(*t as u64),
    }
}

/// The payload part of a message's line, exactly as `spec_payload_render`
/// states it.
pub fn render_payload(m: &Message) -> (s: String)
    ensures
        s@ == spec_payload_render(*m),
{
    match m {
        Message::Debug(t) => t.clone(),
        Message::Note(n) => render_note(n),
        Message::NoteOn(n) => render_note(n),
        Message::NoteOff(n) => render_note(n),
        Message::Ctrl(c) => render_ctrl(c),
        Message::Pitch(c) => render_ctrl(c),
        Message::Other(k) => render_kind(k),
    }
}

/// One full log line for a message received `micros` microseconds after
/// process start, exactly as `spec_line` states it.
pub fn render_line(micros: u64, m: &Message) -> (s: String)
    ensures
        s@ == spec_line(micros, *m),
{
    let mut s = String::from_str("[");
    let ts = format_timestamp(micros);
    s.append(ts.as_str());
    s.append("] - ");
    s.append(label(m));
    s.append(" - ");
    let payload = render_payload(m);
    s.append(payload.as_str());
    proof {
        assert(s@ =~= spec_line(micros, *m));
    }
    s
}

/// A message together with the elapsed time at which the logger received it.
pub struct StampedMessage {
    pub micros: u64,
    pub msg: Message,
}

/// One step of the consume loop, fed with what the channel receive returned:
/// a message yields exactly its log line; channel closure (`None`, both
/// producers gone) yields nothing — the loop's normal, silent end.
pub fn consumer_step(received: Option<Message>, micros: u64) -> (r: Option<String>)
    ensures
        received matches Some(m) ==> (r matches Some(line) && line@ == spec_line(micros, m)),
        received is None ==> r is None,
{
    match received {
        Some(m) => Some(render_line(micros, &m)),
        None => None,
    }
}

/// The lines for a drained batch of stamped messages, in arrival order.
pub open spec fn spec_lines(entries: Seq<StampedMessage>) -> Seq<Seq<char>> {
    entries.map(|i: int, e: StampedMessage| spec_line(e.micros, e.msg))
}

/// Render a drained batch of stamped messages: exactly one line per message,
/// in arrival order, each line as `spec_line` states it.
pub fn render_messages(entries: &Vec<StampedMessage>) -> (lines: Vec<String>)
    ensures
        lines@.len() == entries@.len(),
        forall|i: int|
            0 <= i < entries@.len() ==> lines@[i]@ == spec_line(
                entries@[i].micros,
                entries@[i].msg,
            ),
{
    let mut lines: Vec<String> = Vec::new();
    let mut idx: usize = 0;
    while idx < entries.len()
        invariant
            idx <= entries@.len(),
            lines@.len() == idx,
            forall|i: int|
                0 <= i < idx ==> lines@[i]@ == spec_line(entries@[i].micros, entries@[i].msg),
        decreases entries@.len() - idx,
    {
        let e = &entries[idx];
        let line = render_line(e.micros, &e.msg);
        lines.push(line);
        idx = idx + 1;
    }
    lines
}

} // verus!
