//! Errors reported by sinks.

use vstd::prelude::*;

verus! {

/// The operation during which an I/O failure occurred.
#[derive(Clone, Copy, PartialEq, Eq, Structural, Debug)]
pub enum IoOperation {
    Open,
    Write,
    Flush,
}

/// Error returned by a sink.  Every failure originating in this subsystem is
/// an I/O failure; it is reported to the caller, never raised as a panic, and
/// carries the operation that failed for diagnostics.
#[derive(Clone, Copy, PartialEq, Eq, Structural, Debug)]
pub enum Error {
    Io(IoOperation),
}

impl Error {
    /// A short description of the error.
    pub fn message(&self) -> (r: &'static str)
        ensures
            r@ == self.message_spec(),
    {
        match self {
            Error::Io(IoOperation::Open) => "I/O failure while opening the target",
            Error::Io(IoOperation::Write) => "I/O failure while writing to the target",
            Error::Io(IoOperation::Flush) => "I/O failure while flushing the target",
        }
    }

    /// The characters of [`Error::message`].
    pub open spec fn message_spec(self) -> Seq<char> {
        match self {
            Error::Io(IoOperation::Open) => "I/O failure while opening the target"@,
            Error::Io(IoOperation::Write) => "I/O failure while writing to the target"@,
            Error::Io(IoOperation::Flush) => "I/O failure while flushing the target"@,
        }
    }
}

} // verus!
