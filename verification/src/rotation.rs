//! When a rotating sink closes its current file and opens the next one.

use vstd::prelude::*;

verus! {

/// The rule deciding, before each write, whether the current file is closed
/// and a fresh one opened.  A policy is immutable once attached to a sink;
/// changing it means building a new sink.
#[derive(Clone, Copy, PartialEq, Eq, Structural, Debug)]
pub enum RotationPolicy {
    /// Rotate when appending the incoming record would push the current file
    /// past this many bytes.
    FileSize(u64),
    /// Rotate when the wall clock has crossed a multiple of this many seconds
    /// since the current file was opened (3600 rotates hourly, 86400 daily).
    Period(u64),
    /// Rotate when either the size rule or the period rule signals.
    FileSizeOrPeriod(u64, u64),
}

impl RotationPolicy {
    /// A period of zero seconds names no boundary at all, so a well-formed
    /// policy has a positive period.
    pub open spec fn wf(self) -> bool {
        match self {
            RotationPolicy::FileSize(_) => true,
            RotationPolicy::Period(period) => period > 0,
            RotationPolicy::FileSizeOrPeriod(_, period) => period > 0,
        }
    }

    /// The size rule: the record would push the file past `max_size` bytes.
    /// A file holding exactly `max_size` bytes after the write is still
    /// within bounds.
    pub open spec fn size_exceeded(max_size: u64, current_size: nat, incoming_size: nat) -> bool {
        current_size + incoming_size > max_size
    }

    /// The period rule: `now` lies in a different period-sized window of the
    /// clock than the moment the file was opened.
    pub open spec fn period_crossed(period: u64, open_time: u64, now: u64) -> bool {
        now as nat / period as nat != open_time as nat / period as nat
    }

    /// What [`RotationPolicy::should_rotate`] decides, given the current
    /// file's size and opening time and the incoming record's formatted size
    /// and timestamp.
    pub open spec fn rotate_spec(
        self,
        current_size: nat,
        open_time: u64,
        incoming_size: nat,
        now: u64,
    ) -> bool {
        match self {
            RotationPolicy::FileSize(max_size) => Self::size_exceeded(
                max_size,
                current_size,
                incoming_size,
            ),
            RotationPolicy::Period(period) => Self::period_crossed(period, open_time, now),
            RotationPolicy::FileSizeOrPeriod(max_size, period) => Self::size_exceeded(
                max_size,
                current_size,
                incoming_size,
            ) || Self::period_crossed(period, open_time, now),
        }
    }

    /// Whether a file of `current_size` bytes, opened at `open_time`, is
    /// rotated before a record of `incoming_size` formatted bytes stamped
    /// `now` is written.
    pub fn should_rotate(
        &self,
        current_size: u64,
        open_time: u64,
        incoming_size: u64,
        now: u64,
    ) -> (r: bool)
        requires
            self.wf(),
        ensures
            r == self.rotate_spec(current_size as nat, open_time, incoming_size as nat, now),
    {
        match self {
            RotationPolicy::FileSize(max_size) => {
                incoming_size > *max_size || current_size > *max_size - incoming_size
            },
            RotationPolicy::Period(period) => now / *period != open_time / *period,
            RotationPolicy::FileSizeOrPeriod(max_size, period) => {
                (incoming_size > *max_size || current_size > *max_size - incoming_size) || now
                    / *period != open_time / *period
            },
        }
    }

    /// Whether the policy is well formed, decided at run time.
    pub fn is_wf(&self) -> (r: bool)
        ensures
            r == self.wf(),
    {
        match self {
            RotationPolicy::FileSize(_) => true,
            RotationPolicy::Period(period) => *period > 0,
            RotationPolicy::FileSizeOrPeriod(_, period) => *period > 0,
        }
    }
}

} // verus!
