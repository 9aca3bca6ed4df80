//! Log severities and the per-sink severity filter.

use vstd::prelude::*;

verus! {

/// Severity of a log record, from least to most severe.  Levels are compared
/// by their ordinal alone.
#[derive(Clone, Copy, PartialEq, Eq, Structural, Debug)]
pub enum Level {
    Trace,
    Debug,
    Info,
    Warn,
    Error,
    Critical,
}

impl Level {
    /// Position of the level in the severity order: `Trace` is 0, `Critical`
    /// is 5.
    pub open spec fn ordinal(self) -> nat {
        match self {
            Level::Trace => 0,
            Level::Debug => 1,
            Level::Info => 2,
            Level::Warn => 3,
            Level::Error => 4,
            Level::Critical => 5,
        }
    }

    /// The ordinal as a machine integer.
    pub fn as_ordinal(self) -> (r: u32)
        ensures
            r == self.ordinal(),
    {
        match self {
            Level::Trace => 0,
            Level::Debug => 1,
            Level::Info => 2,
            Level::Warn => 3,
            Level::Error => 4,
            Level::Critical => 5,
        }
    }
}

/// A predicate over [`Level`]: which severities a sink accepts.
///
/// Each sink owns one filter; records whose level the filter rejects are
/// discarded by that sink.
#[derive(Clone, Copy, PartialEq, Eq, Structural, Debug)]
pub enum LevelFilter {
    /// Rejects every record.
    Off,
    /// Accepts records at exactly the given level.
    Equal(Level),
    /// Accepts records at any level but the given one.
    NotEqual(Level),
    /// Accepts records strictly more severe than the given level.
    MoreSevere(Level),
    /// Accepts records at the given level or more severe.
    MoreSevereEqual(Level),
    /// Accepts every record.
    All,
}

impl LevelFilter {
    /// What the filter accepts, stated over ordinals.
    pub open spec fn accepts(self, level: Level) -> bool {
        match self {
            LevelFilter::Off => false,
            LevelFilter::Equal(l) => level.ordinal() == l.ordinal(),
            LevelFilter::NotEqual(l) => level.ordinal() != l.ordinal(),
            LevelFilter::MoreSevere(l) => level.ordinal() > l.ordinal(),
            LevelFilter::MoreSevereEqual(l) => level.ordinal() >= l.ordinal(),
            LevelFilter::All => true,
        }
    }

    /// Whether a record at `level` passes this filter.
    pub fn compare(&self, level: Level) -> (r: bool)
        ensures
            r == self.accepts(level),
    {
        match self {
            LevelFilter::Off => false,
            LevelFilter::Equal(l) => level.as_ordinal() == l.as_ordinal(),
            LevelFilter::NotEqual(l) => level.as_ordinal() != l.as_ordinal(),
            LevelFilter::MoreSevere(l) => level.as_ordinal() > l.as_ordinal(),
            LevelFilter::MoreSevereEqual(l) => level.as_ordinal() >= l.as_ordinal(),
            LevelFilter::All => true,
        }
    }
}

} // verus!
