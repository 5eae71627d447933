//! A minimal MIDI event capture library: raw sequencer events are classified
//! into typed messages, funneled through a multi-producer/single-consumer
//! channel, and rendered by a single logger as timestamped log lines.
//!
//! The library holds the verified core — classification, line formatting and
//! the logger's step logic. The native sequencer driver, the threads and the
//! channel itself live outside it and hand the library plain values.

pub mod event;
pub mod message;
pub mod laws;
pub mod logger;
pub mod numfmt;
pub mod translate;
