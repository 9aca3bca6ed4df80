//! One immutable log event, as handed from a logger to its sinks.

use vstd::prelude::*;
use crate::level::Level;

verus! {

/// One log event: a severity, the wall-clock time at which it was produced
/// (seconds since some fixed epoch), and the message payload in bytes.
///
/// A record is immutable; a sink only borrows it for the duration of a call.
pub struct Record {
    level: Level,
    time: u64,
    payload: Vec<u8>,
}

/// Abstract value of a [`Record`].
pub ghost struct RecordView {
    pub level: Level,
    pub time: u64,
    pub payload: Seq<u8>,
}

impl View for Record {
    type V = RecordView;

    closed spec fn view(&self) -> RecordView {
        RecordView { level: self.level, time: self.time, payload: self.payload@ }
    }
}

impl Record {
    /// Builds a record from its parts.
    pub fn new(level: Level, time: u64, payload: Vec<u8>) -> (r: Record)
        ensures
            r@ == (RecordView { level, time, payload: payload@ }),
    {
        Record { level, time, payload }
    }

    /// The record's severity.
    pub fn level(&self) -> (r: Level)
        ensures
            r == self@.level,
    {
        self.level
    }

    /// The record's timestamp.
    pub fn time(&self) -> (r: u64)
        ensures
            r == self@.time,
    {
        self.time
    }

    /// The record's message payload.
    pub fn payload(&self) -> (r: &Vec<u8>)
        ensures
            r@ == self@.payload,
    {
        &self.payload
    }
}

} // verus!
