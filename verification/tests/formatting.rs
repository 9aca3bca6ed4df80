use logsink::formatter::{format_decimal, Formatter};
use logsink::level::Level;
use logsink::record::Record;
use logsink::rotating_file_sink::rotated_file_name;

#[test]
fn decimal_of_zero() {
    assert_eq!(format_decimal(0), b"0".to_vec());
}

#[test]
fn decimal_of_round_numbers() {
    assert_eq!(format_decimal(10), b"10".to_vec());
    assert_eq!(format_decimal(100), b"100".to_vec());
}

#[test]
fn decimal_of_large_numbers() {
    assert_eq!(format_decimal(12345), b"12345".to_vec());
    assert_eq!(format_decimal(u64::MAX), b"18446744073709551615".to_vec());
}

#[test]
fn plain_formatter_appends_newline_only() {
    let record = Record::new(Level::Info, 99, b"hello".to_vec());
    assert_eq!(Formatter::plain().format(&record), b"hello\n".to_vec());
}

#[test]
fn full_formatter_prefixes_time_and_level() {
    let record = Record::new(Level::Error, 1234, b"disk on fire".to_vec());
    assert_eq!(
        Formatter::full().format(&record),
        b"1234 [E] disk on fire\n".to_vec()
    );
}

#[test]
fn level_marks_are_distinct() {
    let levels = [
        Level::Trace,
        Level::Debug,
        Level::Info,
        Level::Warn,
        Level::Error,
        Level::Critical,
    ];
    let formatter = Formatter { with_time: false, with_level: true };
    let mut seen = Vec::new();
    for level in levels {
        let line = formatter.format(&Record::new(level, 0, b"x".to_vec()));
        assert!(!seen.contains(&line));
        seen.push(line);
    }
}

#[test]
fn empty_payload_still_makes_a_line() {
    let record = Record::new(Level::Debug, 7, Vec::new());
    assert_eq!(Formatter::plain().format(&record), b"\n".to_vec());
    assert_eq!(Formatter::full().format(&record), b"7 [D] \n".to_vec());
}

#[test]
fn rotated_names_are_deterministic() {
    assert_eq!(rotated_file_name(&b"app.log".to_vec(), 0), b"app.log.0".to_vec());
    assert_eq!(rotated_file_name(&b"app.log".to_vec(), 42), b"app.log.42".to_vec());
}
