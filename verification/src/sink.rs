//! The contract every log destination implements.

use vstd::prelude::*;
use crate::error::Error;
use crate::formatter::Formatter;
use crate::level::{Level, LevelFilter};
use crate::record::Record;

verus! {

/// A trait for sinks.
///
/// Sinks are the objects that actually write the log to their target.  Each
/// sink is responsible for a single target, owns its own [`LevelFilter`] and
/// its own [`Formatter`], and a logger may combine several of them.
///
/// Whatever the target, every sink keeps these promises: `should_log` agrees
/// exactly with the current filter; `log` and `flush` report I/O trouble as an
/// [`Error`] instead of panicking, and never touch the filter or the
/// formatter; `set_level_filter` and `swap_formatter` change exactly the
/// configuration they name, so a swap can later be undone.
pub trait Sink: Sized {
    /// Well-formedness of the sink's internal state; constructors establish
    /// it and every operation preserves it.
    spec fn inv(&self) -> bool;

    /// The currently installed level filter.
    spec fn filter_spec(&self) -> LevelFilter;

    /// The currently installed formatter.
    spec fn formatter_spec(&self) -> Formatter;

    /// Getter of the log level filter.
    fn level_filter(&self) -> (r: LevelFilter)
        requires
            self.inv(),
        ensures
            r == self.filter_spec(),
    ;

    /// Determines if a log message with the specified level would be logged.
    fn should_log(&self, level: Level) -> (r: bool)
        requires
            self.inv(),
        ensures
            r == self.filter_spec().accepts(level),
    {
        self.level_filter().compare(level)
    }

    /// Logs the record.
    ///
    /// Filtering inside `log` is redundant when the caller has already asked
    /// [`Sink::should_log`], but an implementation must behave safely — fail
    /// with an [`Error`], never panic — when called without that check.
    fn log(&mut self, record: &Record) -> (r: Result<(), Error>)
        requires
            old(self).inv(),
        ensures
            final(self).inv(),
            final(self).filter_spec() == old(self).filter_spec(),
            final(self).formatter_spec() == old(self).formatter_spec(),
    ;

    /// Flushes any buffered records.
    fn flush(&mut self) -> (r: Result<(), Error>)
        requires
            old(self).inv(),
        ensures
            final(self).inv(),
            final(self).filter_spec() == old(self).filter_spec(),
            final(self).formatter_spec() == old(self).formatter_spec(),
    ;

    /// Setter of the log level filter.  Effective for subsequent calls;
    /// everything else about the sink is untouched.
    fn set_level_filter(&mut self, level_filter: LevelFilter)
        requires
            old(self).inv(),
        ensures
            final(self).inv(),
            final(self).filter_spec() == level_filter,
            final(self).formatter_spec() == old(self).formatter_spec(),
    ;

    /// Swaps the formatter, returning the previously installed one.
    fn swap_formatter(&mut self, formatter: Formatter) -> (r: Formatter)
        requires
            old(self).inv(),
        ensures
            final(self).inv(),
            r == old(self).formatter_spec(),
            final(self).formatter_spec() == formatter,
            final(self).filter_spec() == old(self).filter_spec(),
    ;

    /// Setter of the formatter: a swap that discards the previous formatter.
    fn set_formatter(&mut self, formatter: Formatter)
        requires
            old(self).inv(),
        ensures
            final(self).inv(),
            final(self).formatter_spec() == formatter,
            final(self).filter_spec() == old(self).filter_spec(),
    {
        self.swap_formatter(formatter);
    }
}

} // verus!
