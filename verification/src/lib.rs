//! Sink subsystem of a structured logging library.
//!
//! A sink is an independently configured log destination: it filters records
//! by severity, renders them through its own formatter, and writes the bytes
//! to its target.  The centrepiece is the rotating file sink, which closes the
//! current output file and opens a fresh one whenever its rotation policy
//! signals, without losing or duplicating any record.

pub mod error;
pub mod formatter;
pub mod laws;
pub mod level;
pub mod record;
pub mod rotating_file_sink;
pub mod rotation;
pub mod sink;
