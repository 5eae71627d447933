//! The producer/consumer pipeline on concrete event sequences: translation of
//! each kind, fatal malformed payloads, line counts, and the shutdown step.

use midilog::event::{CtrlEvent, DriverEvent, EventKind, NoteEvent};
use midilog::logger::{consumer_step, render_messages, StampedMessage};
use midilog::message::{hello_message, Message};
use midilog::translate::{translate, translate_events, TranslateError};

fn note(channel: u8, note: u8, velocity: u8) -> NoteEvent {
    NoteEvent { channel, note, velocity, off_velocity: 0, duration: 0 }
}

fn note_event(kind: EventKind, n: NoteEvent) -> DriverEvent {
    DriverEvent { kind, note: Some(n), ctrl: None }
}

fn ctrl_event(kind: EventKind, c: CtrlEvent) -> DriverEvent {
    DriverEvent { kind, note: None, ctrl: Some(c) }
}

#[test]
fn translate_each_recognized_kind() {
    let n = note(1, 60, 100);
    let c = CtrlEvent { channel: 2, param: 7, value: 64 };
    match translate(note_event(EventKind::Note, n)) {
        Ok(Message::Note(got)) => assert_eq!(got, n),
        _ => panic!("Note must translate to Message::Note"),
    }
    match translate(note_event(EventKind::NoteOn, n)) {
        Ok(Message::NoteOn(got)) => assert_eq!(got, n),
        _ => panic!("NoteOn must translate to Message::NoteOn"),
    }
    match translate(note_event(EventKind::NoteOff, n)) {
        Ok(Message::NoteOff(got)) => assert_eq!(got, n),
        _ => panic!("NoteOff must translate to Message::NoteOff"),
    }
    match translate(ctrl_event(EventKind::Controller, c)) {
        Ok(Message::Ctrl(got)) => assert_eq!(got, c),
        _ => panic!("Controller must translate to Message::Ctrl"),
    }
    match translate(ctrl_event(EventKind::Pitchbend, c)) {
        Ok(Message::Pitch(got)) => assert_eq!(got, c),
        _ => panic!("Pitchbend must translate to Message::Pitch"),
    }
}

#[test]
fn translate_unrecognized_kind_keeps_raw_tag() {
    let ev = DriverEvent { kind: EventKind::Other(42), note: None, ctrl: None };
    match translate(ev) {
        Ok(Message::Other(EventKind::Other(tag))) => assert_eq!(tag, 42),
        _ => panic!("an unrecognized kind must translate to Message::Other"),
    }
}

#[test]
fn translate_malformed_payload_is_fatal() {
    let ev = DriverEvent { kind: EventKind::NoteOn, note: None, ctrl: None };
    assert_eq!(
        translate(ev),
        Err(TranslateError::MalformedPayload(EventKind::NoteOn))
    );
    let ev = DriverEvent { kind: EventKind::Pitchbend, note: None, ctrl: None };
    assert_eq!(
        translate(ev),
        Err(TranslateError::MalformedPayload(EventKind::Pitchbend))
    );
}

#[test]
fn translate_events_keeps_order() {
    let events = vec![
        note_event(EventKind::NoteOn, note(1, 60, 100)),
        note_event(EventKind::NoteOff, note(1, 60, 0)),
        ctrl_event(EventKind::Controller, CtrlEvent { channel: 1, param: 7, value: 90 }),
    ];
    let msgs = translate_events(&events).expect("all events are well formed");
    assert_eq!(msgs.len(), 3);
    assert!(matches!(msgs[0], Message::NoteOn(_)));
    assert!(matches!(msgs[1], Message::NoteOff(_)));
    assert!(matches!(msgs[2], Message::Ctrl(_)));
}

#[test]
fn translate_events_stops_at_first_malformed() {
    let events = vec![
        note_event(EventKind::NoteOn, note(1, 60, 100)),
        DriverEvent { kind: EventKind::Controller, note: None, ctrl: None },
        note_event(EventKind::NoteOff, note(1, 60, 0)),
    ];
    assert_eq!(
        translate_events(&events),
        Err(TranslateError::MalformedPayload(EventKind::Controller))
    );
}

#[test]
fn channel_closure_ends_consumer_silently() {
    assert!(consumer_step(None, 123).is_none());
    let line = consumer_step(Some(hello_message()), 0);
    assert_eq!(line.as_deref(), Some("[    0.000000] - Debug - Hello, world!"));
}

#[test]
fn batch_of_known_kinds_logs_one_line_each_plus_debug() {
    let events = vec![
        note_event(EventKind::NoteOn, note(1, 60, 100)),
        note_event(EventKind::NoteOff, note(1, 60, 0)),
        ctrl_event(EventKind::Pitchbend, CtrlEvent { channel: 1, param: 0, value: -8192 }),
    ];
    let msgs = translate_events(&events).expect("all events are well formed");
    let mut entries = vec![StampedMessage { micros: 5, msg: hello_message() }];
    let mut micros = 10;
    for msg in msgs {
        entries.push(StampedMessage { micros, msg });
        micros += 10;
    }
    let lines = render_messages(&entries);
    assert_eq!(lines.len(), events.len() + 1);
    assert_eq!(lines[0], "[    0.000005] - Debug - Hello, world!");
    assert_eq!(
        lines[1],
        "[    0.000010] - NoteOn - channel=1, note=60, velocity=100, off_velocity=0, duration=0"
    );
    assert_eq!(
        lines[2],
        "[    0.000020] - NoteOff - channel=1, note=60, velocity=0, off_velocity=0, duration=0"
    );
    assert_eq!(
        lines[3],
        "[    0.000030] - Pitch - channel=1, param=0, value=-8192"
    );
}

#[test]
fn scenario_noteon_then_closure_gives_two_lines() {
    let events = vec![note_event(EventKind::NoteOn, note(1, 60, 100))];
    let msgs = translate_events(&events).expect("the event is well formed");
    assert_eq!(msgs.len(), 1);
    let mut entries: Vec<StampedMessage> = Vec::new();
    entries.push(StampedMessage { micros: 0, msg: hello_message() });
    for msg in msgs {
        entries.push(StampedMessage { micros: 3, msg });
    }
    let lines = render_messages(&entries);
    assert_eq!(lines.len(), 2);
    let debug_lines: Vec<&String> = lines.iter().filter(|l| l.contains("- Debug -")).collect();
    let noteon_lines: Vec<&String> = lines.iter().filter(|l| l.contains("- NoteOn -")).collect();
    assert_eq!(debug_lines.len(), 1);
    assert_eq!(noteon_lines.len(), 1);
    assert!(debug_lines[0].contains("Hello, world!"));
    assert!(noteon_lines[0].contains("channel=1"));
    assert!(noteon_lines[0].contains("note=60"));
    assert!(noteon_lines[0].contains("velocity=100"));
    assert!(consumer_step(None, 4).is_none());
}

#[test]
fn scenario_immediate_read_failure_logs_no_event_line() {
    // The adapter errors on its first read: the translator hands over no
    // events, so at most the independent debug line reaches the logger.
    let events: Vec<DriverEvent> = Vec::new();
    let msgs = translate_events(&events).expect("an empty batch is well formed");
    assert!(msgs.is_empty());
    let mut entries = vec![StampedMessage { micros: 1, msg: hello_message() }];
    for msg in msgs {
        entries.push(StampedMessage { micros: 2, msg });
    }
    let lines = render_messages(&entries);
    assert_eq!(lines.len(), 1);
    assert!(!lines[0].contains("- NoteOn -"));
    assert!(!lines[0].contains("- Ctrl -"));
    assert!(!lines[0].contains("- Pitch -"));
    assert!(consumer_step(None, 3).is_none());
}
