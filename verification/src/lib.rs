//! A diagnostic recorder for digital-pin transitions.
//!
//! The recorder stands in for a digital output pin: every `set_low` /
//! `set_high` call appends a timestamped sample to an append-only log,
//! and a one-shot export serializes the whole log as CSV.

pub mod codec;
pub mod csv_out;
pub mod recorder;
pub mod sample;
pub mod time;

pub use codec::{DecodeError, IntCodec, Level};
pub use recorder::{ExportError, GpioRecorder};
pub use sample::Sample;
pub use time::Timestamp;
