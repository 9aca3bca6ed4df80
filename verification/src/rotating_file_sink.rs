//! A sink that spreads its output over a rotating set of files.
//!
//! The sink owns the file set as plain bytes: the already-rotated files in
//! order of creation, and the current file when one is open.  An embedding
//! that backs the sink with an actual file system keeps one disk file per
//! entry of that set; the naming helper [`rotated_file_name`] gives each
//! entry a deterministic, collision-free name from its position.
//!
//! Opening a file is the one operation of this model that can fail, and only
//! because it was told to: [`RotatingFileSink::inject_open_failures`] makes
//! the next so many open attempts fail, which is how the recovery path —
//! report an [`Error`], stay consistent, succeed on the next call — is
//! exercised.

use vstd::prelude::*;
use crate::error::{Error, IoOperation};
use crate::formatter::{decimal_digits, format_decimal, push_all, Formatter};
use crate::level::LevelFilter;
use crate::record::{Record, RecordView};
use crate::rotation::RotationPolicy;
use crate::sink::Sink;

verus! {

/// Abstract state of a [`RotatingFileSink`].
#[verifier::ext_equal]
pub ghost struct RotatingSinkView {
    /// The sink's severity filter.
    pub level_filter: LevelFilter,
    /// The sink's formatter.
    pub formatter: Formatter,
    /// The rotation rule, fixed at construction.
    pub policy: RotationPolicy,
    /// The bytes of the rotated files, in order of creation.
    pub archived: Seq<Seq<u8>>,
    /// The bytes of the open file, or `None` when no file is open.
    pub current: Option<Seq<u8>>,
    /// When the open file was opened; meaningful only while one is open.
    pub open_time: u64,
    /// How many upcoming open attempts fail.
    pub pending_open_failures: u32,
}

impl RotatingSinkView {
    /// A well-formed sink carries a well-formed policy.
    pub open spec fn wf(self) -> bool {
        self.policy.wf()
    }

    /// Whether the record passes the sink's filter.
    pub open spec fn accepts(self, rec: RecordView) -> bool {
        self.level_filter.accepts(rec.level)
    }

    /// Whether a write must first open a file: none is open.
    pub open spec fn needs_open(self) -> bool {
        self.current is None
    }

    /// Whether writing `rec` rotates first: the policy signals, and the open
    /// file is non-empty — an empty file is never rotated, so a record larger
    /// than a size limit still lands whole in the file opened for it.
    pub open spec fn wants_rotation(self, rec: RecordView) -> bool {
        match self.current {
            Option::Some(data) => data.len() > 0 && self.policy.rotate_spec(
                data.len(),
                self.open_time,
                self.formatter.format_spec(rec).len(),
                rec.time,
            ),
            Option::None => false,
        }
    }

    /// The state after closing the current file into the archive.
    pub open spec fn closed(self) -> RotatingSinkView {
        RotatingSinkView {
            archived: self.archived.push(self.current->Some_0),
            current: Option::None,
            ..self
        }
    }

    /// What [`RotatingFileSink::log`] returns: `Ok` unless the call had to
    /// open a file — initially, or to rotate — and that open failed.
    pub open spec fn log_result(self, rec: RecordView) -> Result<(), Error> {
        if !self.accepts(rec) {
            Result::Ok(())
        } else if (self.needs_open() || self.wants_rotation(rec)) && self.pending_open_failures
            > 0 {
            Result::Err(Error::Io(IoOperation::Open))
        } else {
            Result::Ok(())
        }
    }

    /// The sink state after [`RotatingFileSink::log`].
    ///
    /// A rejected record changes nothing.  A rotation closes the current file
    /// into the archive before anything else.  A failed open consumes one
    /// injected failure and leaves no file open — the record is reported
    /// lost through [`RotatingSinkView::log_result`], never silently.  A
    /// successful open stamps the file with the record's time.  The formatted
    /// record is appended to the file that is open when the write happens.
    pub open spec fn log_post(self, rec: RecordView) -> RotatingSinkView {
        if !self.accepts(rec) {
            self
        } else {
            let bytes = self.formatter.format_spec(rec);
            let base = if self.wants_rotation(rec) {
                self.closed()
            } else {
                self
            };
            if base.needs_open() {
                if base.pending_open_failures > 0 {
                    RotatingSinkView {
                        pending_open_failures: (base.pending_open_failures - 1) as u32,
                        ..base
                    }
                } else {
                    RotatingSinkView { current: Option::Some(bytes), open_time: rec.time, ..base }
                }
            } else {
                RotatingSinkView { current: Option::Some(base.current->Some_0 + bytes), ..base }
            }
        }
    }

    /// The state after [`RotatingFileSink::swap_formatter`].
    pub open spec fn swap_formatter_post(self, formatter: Formatter) -> RotatingSinkView {
        RotatingSinkView { formatter, ..self }
    }

    /// What [`RotatingFileSink::swap_formatter`] returns.
    pub open spec fn swap_formatter_result(self, formatter: Formatter) -> Formatter {
        self.formatter
    }
}

/// An implementation of [`Sink`] that rotates its output per a
/// [`RotationPolicy`]: before each write it asks the policy whether the
/// current file is full or stale, and if so closes it into the archive and
/// opens a fresh one.  I/O failure is reported as an [`Error`]; the sink then
/// holds no half-open file and the next call starts cleanly.
pub struct RotatingFileSink {
    level_filter: LevelFilter,
    formatter: Formatter,
    policy: RotationPolicy,
    archived: Vec<Vec<u8>>,
    current: Vec<u8>,
    is_open: bool,
    open_time: u64,
    pending_open_failures: u32,
}

impl View for RotatingFileSink {
    type V = RotatingSinkView;

    closed spec fn view(&self) -> RotatingSinkView {
        RotatingSinkView {
            level_filter: self.level_filter,
            formatter: self.formatter,
            policy: self.policy,
            archived: self.archived@.map(|i: int, f: Vec<u8>| f@),
            current: if self.is_open {
                Option::Some(self.current@)
            } else {
                Option::None
            },
            open_time: self.open_time,
            pending_open_failures: self.pending_open_failures,
        }
    }
}

impl RotatingFileSink {
    /// Builds a sink with the given filter, formatter and rotation policy.
    /// No file is open yet; the first accepted record opens one.
    pub fn new(level_filter: LevelFilter, formatter: Formatter, policy: RotationPolicy) -> (r:
        RotatingFileSink)
        requires
            policy.wf(),
        ensures
            r@ == (RotatingSinkView {
                level_filter,
                formatter,
                policy,
                archived: Seq::<Seq<u8>>::empty(),
                current: Option::<Seq<u8>>::None,
                open_time: 0,
                pending_open_failures: 0,
            }),
    {
        let s = RotatingFileSink {
            level_filter,
            formatter,
            policy,
            archived: Vec::new(),
            current: Vec::new(),
            is_open: false,
            open_time: 0,
            pending_open_failures: 0,
        };
        proof {
            assert(s@.archived =~= Seq::<Seq<u8>>::empty());
            assert(s@ =~= (RotatingSinkView {
                level_filter,
                formatter,
                policy,
                archived: Seq::<Seq<u8>>::empty(),
                current: Option::<Seq<u8>>::None,
                open_time: 0,
                pending_open_failures: 0,
            }));
        }
        s
    }

    /// The rotation policy the sink was built with.
    pub fn policy(&self) -> (r: RotationPolicy)
        ensures
            r == self@.policy,
    {
        self.policy
    }

    /// How many rotated files the archive holds.
    pub fn archived_count(&self) -> (r: usize)
        ensures
            r == self@.archived.len(),
    {
        self.archived.len()
    }

    /// The bytes of the `index`-th rotated file, oldest first.
    pub fn archived_file(&self, index: usize) -> (r: &Vec<u8>)
        requires
            index < self@.archived.len(),
        ensures
            r@ == self@.archived[index as int],
    {
        &self.archived[index]
    }

    /// Whether a file is currently open.
    pub fn is_open(&self) -> (r: bool)
        ensures
            r == (self@.current is Some),
    {
        self.is_open
    }

    /// The bytes of the currently open file.
    pub fn current_file(&self) -> (r: &Vec<u8>)
        requires
            self@.current is Some,
        ensures
            r@ == self@.current->Some_0,
    {
        &self.current
    }

    /// Makes the next `count` open attempts fail, so that callers can
    /// exercise the rotation-failure path; nothing else changes.
    pub fn inject_open_failures(&mut self, count: u32)
        ensures
            final(self)@ == (RotatingSinkView { pending_open_failures: count, ..old(self)@ }),
    {
        self.pending_open_failures = count;
    }

    /// How many injected open failures are still pending.
    pub fn pending_open_failures(&self) -> (r: u32)
        ensures
            r == self@.pending_open_failures,
    {
        self.pending_open_failures
    }
}

impl Sink for RotatingFileSink {
    open spec fn inv(&self) -> bool {
        self@.wf()
    }

    open spec fn filter_spec(&self) -> LevelFilter {
        self@.level_filter
    }

    open spec fn formatter_spec(&self) -> Formatter {
        self@.formatter
    }

    fn level_filter(&self) -> (r: LevelFilter) {
        self.level_filter
    }

    fn log(&mut self, record: &Record) -> (r: Result<(), Error>)
        ensures
            final(self)@ == old(self)@.log_post(record@),
            r == old(self)@.log_result(record@),
    {
        if !self.level_filter.compare(record.level()) {
            return Result::Ok(());
        }
        let bytes = self.formatter.format(record);
        let rotate = self.is_open && self.current.len() > 0 && self.policy.should_rotate(
            self.current.len() as u64,
            self.open_time,
            bytes.len() as u64,
            record.time(),
        );
        if rotate {
            let mut finished: Vec<u8> = Vec::new();
            core::mem::swap(&mut finished, &mut self.current);
            self.archived.push(finished);
            self.is_open = false;
            proof {
                assert(self@.archived =~= old(self)@.closed().archived);
                assert(self@ =~= old(self)@.closed());
            }
        }
        if !self.is_open {
            if self.pending_open_failures > 0 {
                self.pending_open_failures = self.pending_open_failures - 1;
                proof {
                    assert(self@ =~= old(self)@.log_post(record@));
                }
                return Result::Err(Error::Io(IoOperation::Open));
            }
            self.current = Vec::new();
            self.is_open = true;
            self.open_time = record.time();
        }
        push_all(&mut self.current, &bytes);
        proof {
            assert(self@ =~= old(self)@.log_post(record@));
        }
        Result::Ok(())
    }

    fn flush(&mut self) -> (r: Result<(), Error>)
        ensures
            *final(self) == *old(self),
            r == Result::<(), Error>::Ok(()),
    {
        Result::Ok(())
    }

    fn set_level_filter(&mut self, level_filter: LevelFilter)
        ensures
            final(self)@ == (RotatingSinkView { level_filter, ..old(self)@ }),
    {
        self.level_filter = level_filter;
    }

    fn swap_formatter(&mut self, formatter: Formatter) -> (r: Formatter)
        ensures
            final(self)@ == old(self)@.swap_formatter_post(formatter),
            r == old(self)@.swap_formatter_result(formatter),
    {
        let previous = self.formatter;
        self.formatter = formatter;
        previous
    }
}

/// The name of the `index`-th file of a rotating set: the base name, a dot,
/// and the index in decimal.  Indices increase monotonically with creation
/// order, so names never collide within one set.
pub fn rotated_file_name(base: &Vec<u8>, index: u64) -> (r: Vec<u8>)
    ensures
        r@ == base@ + seq![46u8] + decimal_digits(index as nat),
{
    let mut out: Vec<u8> = Vec::new();
    push_all(&mut out, base);
    out.push(46);
    let digits = format_decimal(index);
    push_all(&mut out, &digits);
    proof {
        assert(out@ =~= base@ + seq![46u8] + decimal_digits(index as nat));
    }
    out
}

} // verus!
