//! Exact expected renderings of numbers, timestamps and single log lines.

use midilog::event::{CtrlEvent, EventKind, NoteEvent};
use midilog::logger::{format_timestamp, render_ctrl, render_kind, render_line, render_note};
use midilog::message::{hello_message, label, Message};
use midilog::numfmt::{i32_to_string, u64_to_string};

#[test]
fn u64_rendering_exact() {
    assert_eq!(u64_to_string(0), "0");
    assert_eq!(u64_to_string(7), "7");
    assert_eq!(u64_to_string(10), "10");
    assert_eq!(u64_to_string(1234567890), "1234567890");
    assert_eq!(u64_to_string(u64::MAX), "18446744073709551615");
}

#[test]
fn i32_rendering_exact() {
    assert_eq!(i32_to_string(0), "0");
    assert_eq!(i32_to_string(64), "64");
    assert_eq!(i32_to_string(-8192), "-8192");
    assert_eq!(i32_to_string(i32::MIN), "-2147483648");
    assert_eq!(i32_to_string(i32::MAX), "2147483647");
}

#[test]
fn timestamp_zero_is_width_twelve() {
    assert_eq!(format_timestamp(0), "    0.000000");
}

#[test]
fn timestamp_pads_fraction_with_zeros() {
    assert_eq!(format_timestamp(1), "    0.000001");
    assert_eq!(format_timestamp(999999), "    0.999999");
    assert_eq!(format_timestamp(1_500_000), "    1.500000");
}

#[test]
fn timestamp_wider_than_twelve_is_not_cut() {
    assert_eq!(format_timestamp(123_456_789_012), "123456.789012");
    assert_eq!(format_timestamp(1_234_567_890_123_456), "1234567890.123456");
}

#[test]
fn note_payload_rendering_exact() {
    let n = NoteEvent { channel: 1, note: 60, velocity: 100, off_velocity: 0, duration: 0 };
    assert_eq!(
        render_note(&n),
        "channel=1, note=60, velocity=100, off_velocity=0, duration=0"
    );
}

#[test]
fn ctrl_payload_rendering_exact() {
    let c = CtrlEvent { channel: 2, param: 7, value: 64 };
    assert_eq!(render_ctrl(&c), "channel=2, param=7, value=64");
    let pitch = CtrlEvent { channel: 0, param: 0, value: -8192 };
    assert_eq!(render_kind(&EventKind::Pitchbend), "Pitchbend");
    assert_eq!(render_ctrl(&pitch), "channel=0, param=0, value=-8192");
}

#[test]
fn unrecognized_kind_renders_raw_tag_only() {
    assert_eq!(render_kind(&EventKind::Other(42)), "42");
    let line = render_line(0, &Message::Other(EventKind::Other(42)));
    assert_eq!(line, "[    0.000000] - Other - 42");
}

#[test]
fn labels_match_tags() {
    let n = NoteEvent { channel: 0, note: 0, velocity: 0, off_velocity: 0, duration: 0 };
    let c = CtrlEvent { channel: 0, param: 0, value: 0 };
    assert_eq!(label(&hello_message()), "Debug");
    assert_eq!(label(&Message::Note(n)), "Note");
    assert_eq!(label(&Message::NoteOn(n)), "NoteOn");
    assert_eq!(label(&Message::NoteOff(n)), "NoteOff");
    assert_eq!(label(&Message::Ctrl(c)), "Ctrl");
    assert_eq!(label(&Message::Pitch(c)), "Pitch");
    assert_eq!(label(&Message::Other(EventKind::Other(3))), "Other");
}

#[test]
fn debug_line_exact() {
    let line = render_line(0, &hello_message());
    assert_eq!(line, "[    0.000000] - Debug - Hello, world!");
}

#[test]
fn noteon_line_exact() {
    let n = NoteEvent { channel: 1, note: 60, velocity: 100, off_velocity: 0, duration: 0 };
    let line = render_line(1, &Message::NoteOn(n));
    assert_eq!(
        line,
        "[    0.000001] - NoteOn - channel=1, note=60, velocity=100, off_velocity=0, duration=0"
    );
}
