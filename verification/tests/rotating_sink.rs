use logsink::error::{Error, IoOperation};
use logsink::formatter::Formatter;
use logsink::level::{Level, LevelFilter};
use logsink::record::Record;
use logsink::rotating_file_sink::RotatingFileSink;
use logsink::rotation::RotationPolicy;
use logsink::sink::Sink;

fn record(level: Level, time: u64, payload: &[u8]) -> Record {
    Record::new(level, time, payload.to_vec())
}

#[test]
fn first_record_opens_a_file() {
    let mut sink = RotatingFileSink::new(
        LevelFilter::All,
        Formatter::plain(),
        RotationPolicy::FileSize(1024),
    );
    assert!(!sink.is_open());
    assert_eq!(sink.policy(), RotationPolicy::FileSize(1024));
    assert_eq!(sink.log(&record(Level::Info, 0, b"one")), Ok(()));
    assert!(sink.is_open());
    assert_eq!(sink.archived_count(), 0);
    assert_eq!(sink.current_file().as_slice(), b"one\n");
}

#[test]
fn info_and_above_emits_only_info_and_above_in_order() {
    let mut sink = RotatingFileSink::new(
        LevelFilter::MoreSevereEqual(Level::Info),
        Formatter::plain(),
        RotationPolicy::FileSize(1024),
    );
    for rec in [
        record(Level::Debug, 1, b"debug"),
        record(Level::Info, 2, b"info"),
        record(Level::Error, 3, b"error"),
    ] {
        if sink.should_log(rec.level()) {
            assert_eq!(sink.log(&rec), Ok(()));
        }
    }
    assert_eq!(sink.archived_count(), 0);
    assert_eq!(sink.current_file().as_slice(), b"info\nerror\n");
}

#[test]
fn log_refilters_when_the_caller_does_not() {
    let mut sink = RotatingFileSink::new(
        LevelFilter::MoreSevereEqual(Level::Info),
        Formatter::plain(),
        RotationPolicy::FileSize(1024),
    );
    assert_eq!(sink.log(&record(Level::Debug, 1, b"dropped")), Ok(()));
    assert!(!sink.is_open());
    assert_eq!(sink.log(&record(Level::Warn, 2, b"kept")), Ok(()));
    assert_eq!(sink.current_file().as_slice(), b"kept\n");
}

#[test]
fn filling_to_the_limit_does_not_rotate_but_exceeding_does() {
    // each record is 4 bytes formatted; the limit holds two of them exactly
    let mut sink = RotatingFileSink::new(
        LevelFilter::All,
        Formatter::plain(),
        RotationPolicy::FileSize(8),
    );
    assert_eq!(sink.log(&record(Level::Info, 0, b"aaa")), Ok(()));
    assert_eq!(sink.log(&record(Level::Info, 0, b"bbb")), Ok(()));
    assert_eq!(sink.archived_count(), 0);
    assert_eq!(sink.current_file().as_slice(), b"aaa\nbbb\n");
    assert_eq!(sink.log(&record(Level::Info, 0, b"ccc")), Ok(()));
    assert_eq!(sink.archived_count(), 1);
    assert_eq!(sink.archived_file(0).as_slice(), b"aaa\nbbb\n");
    assert_eq!(sink.current_file().as_slice(), b"ccc\n");
}

#[test]
fn oversized_record_is_written_whole() {
    let mut sink = RotatingFileSink::new(
        LevelFilter::All,
        Formatter::plain(),
        RotationPolicy::FileSize(4),
    );
    assert_eq!(sink.log(&record(Level::Info, 0, b"a record far over the limit")), Ok(()));
    assert_eq!(sink.archived_count(), 0);
    assert_eq!(sink.current_file().as_slice(), b"a record far over the limit\n");
    // the next record rotates the oversized file away before being written
    assert_eq!(sink.log(&record(Level::Info, 0, b"x")), Ok(()));
    assert_eq!(sink.archived_count(), 1);
    assert_eq!(sink.current_file().as_slice(), b"x\n");
}

#[test]
fn one_rotation_per_period_boundary() {
    let mut sink = RotatingFileSink::new(
        LevelFilter::All,
        Formatter::plain(),
        RotationPolicy::Period(10),
    );
    assert_eq!(sink.log(&record(Level::Info, 5, b"t5")), Ok(()));
    assert_eq!(sink.log(&record(Level::Info, 9, b"t9")), Ok(()));
    assert_eq!(sink.archived_count(), 0);
    assert_eq!(sink.log(&record(Level::Info, 10, b"t10")), Ok(()));
    assert_eq!(sink.archived_count(), 1);
    assert_eq!(sink.archived_file(0).as_slice(), b"t5\nt9\n");
    assert_eq!(sink.current_file().as_slice(), b"t10\n");
    assert_eq!(sink.log(&record(Level::Info, 19, b"t19")), Ok(()));
    assert_eq!(sink.archived_count(), 1);
    assert_eq!(sink.current_file().as_slice(), b"t10\nt19\n");
}

#[test]
fn no_record_is_lost_or_duplicated_across_rotations() {
    let mut sink = RotatingFileSink::new(
        LevelFilter::All,
        Formatter::plain(),
        RotationPolicy::FileSize(10),
    );
    let writers = 3;
    let per_writer = 4;
    for w in 0..writers {
        for m in 0..per_writer {
            let payload = format!("w{w}m{m}");
            assert_eq!(sink.log(&record(Level::Info, 0, payload.as_bytes())), Ok(()));
        }
    }
    let mut everything = Vec::new();
    for i in 0..sink.archived_count() {
        everything.extend_from_slice(sink.archived_file(i));
    }
    everything.extend_from_slice(sink.current_file());
    let lines: Vec<&[u8]> = everything.split(|b| *b == b'\n').filter(|l| !l.is_empty()).collect();
    assert_eq!(lines.len(), writers * per_writer);
    for w in 0..writers {
        for m in 0..per_writer {
            let payload = format!("w{w}m{m}");
            assert_eq!(
                lines.iter().filter(|l| ***l == *payload.as_bytes()).count(),
                1
            );
        }
    }
}

#[test]
fn failed_rotation_reports_io_and_the_next_call_recovers() {
    let mut sink = RotatingFileSink::new(
        LevelFilter::All,
        Formatter::plain(),
        RotationPolicy::FileSize(4),
    );
    assert_eq!(sink.log(&record(Level::Info, 0, b"aaa")), Ok(()));
    sink.inject_open_failures(1);
    assert_eq!(
        sink.log(&record(Level::Info, 0, b"bbb")),
        Err(Error::Io(IoOperation::Open))
    );
    assert!(!sink.is_open());
    assert_eq!(sink.archived_count(), 1);
    assert_eq!(sink.archived_file(0).as_slice(), b"aaa\n");
    assert_eq!(sink.pending_open_failures(), 0);
    // the failure condition is cleared; the next call succeeds cleanly
    assert_eq!(sink.log(&record(Level::Info, 0, b"ccc")), Ok(()));
    assert_eq!(sink.archived_count(), 1);
    assert_eq!(sink.current_file().as_slice(), b"ccc\n");
}

#[test]
fn failed_initial_open_reports_io() {
    let mut sink = RotatingFileSink::new(
        LevelFilter::All,
        Formatter::plain(),
        RotationPolicy::FileSize(100),
    );
    sink.inject_open_failures(2);
    assert_eq!(
        sink.log(&record(Level::Info, 0, b"one")),
        Err(Error::Io(IoOperation::Open))
    );
    assert_eq!(
        sink.log(&record(Level::Info, 0, b"two")),
        Err(Error::Io(IoOperation::Open))
    );
    assert_eq!(sink.log(&record(Level::Info, 0, b"three")), Ok(()));
    assert_eq!(sink.current_file().as_slice(), b"three\n");
}

#[test]
fn swap_formatter_returns_the_previous_one_and_swapping_back_restores_it() {
    let mut sink = RotatingFileSink::new(
        LevelFilter::All,
        Formatter::plain(),
        RotationPolicy::FileSize(1024),
    );
    let old = sink.swap_formatter(Formatter::full());
    assert_eq!(old, Formatter::plain());
    assert_eq!(sink.log(&record(Level::Warn, 33, b"styled")), Ok(()));
    let new = sink.swap_formatter(old);
    assert_eq!(new, Formatter::full());
    assert_eq!(sink.log(&record(Level::Warn, 34, b"plain again")), Ok(()));
    assert_eq!(
        sink.current_file().as_slice(),
        b"33 [W] styled\nplain again\n"
    );
}

#[test]
fn flush_succeeds_and_changes_nothing() {
    let mut sink = RotatingFileSink::new(
        LevelFilter::All,
        Formatter::plain(),
        RotationPolicy::FileSize(1024),
    );
    assert_eq!(sink.flush(), Ok(()));
    assert_eq!(sink.log(&record(Level::Info, 0, b"x")), Ok(()));
    assert_eq!(sink.flush(), Ok(()));
    assert_eq!(sink.current_file().as_slice(), b"x\n");
}

#[test]
fn error_messages_name_the_failed_operation() {
    assert!(Error::Io(IoOperation::Open).message().contains("open"));
    assert!(Error::Io(IoOperation::Write).message().contains("writ"));
    assert!(Error::Io(IoOperation::Flush).message().contains("flush"));
}
