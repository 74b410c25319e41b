use woody::level::parse_level;
use woody::render::format_line;
use woody::temp_name::temp_file_name_from;
use woody::{generate_temp_file_name, LogLevel};

#[test]
fn test_random_file_name() {
    let filename = generate_temp_file_name();

    // make sure the filename is 32 characters long
    assert_eq!(
        filename.len(),
        32,
        "Filename is not 32 characters long: {}",
        filename.len()
    );

    // make sure the filename starts with "temp-"
    assert!(
        filename.starts_with("temp-"),
        "Filename does not start with 'temp-': {filename}"
    );
}

#[test]
fn test_temp_file_name_shape() {
    let filename = generate_temp_file_name();
    assert!(filename.ends_with(".log"));
    let middle = &filename[5..28];
    assert!(middle.chars().all(|c| c.is_ascii_digit()));
}

#[test]
fn test_temp_file_name_from_zero() {
    assert_eq!(
        temp_file_name_from(0),
        "temp-00000000000000000000000.log"
    );
}

#[test]
fn test_temp_file_name_from_small() {
    assert_eq!(
        temp_file_name_from(123),
        "temp-00000000000000000000123.log"
    );
}

#[test]
fn test_temp_file_name_from_max() {
    assert_eq!(
        temp_file_name_from(u64::MAX),
        "temp-00018446744073709551615.log"
    );
}

#[test]
fn test_labels() {
    assert_eq!(LogLevel::Error.label(), "ERROR");
    assert_eq!(LogLevel::Warning.label(), "WARNING");
    assert_eq!(LogLevel::Debug.label(), "DEBUG");
    assert_eq!(LogLevel::Info.label(), "INFO");
    assert_eq!(LogLevel::Trace.label(), "TRACE");
    assert_eq!(LogLevel::Off.label(), "OFF");
    assert_eq!(LogLevel::ALL.label(), "");
}

#[test]
fn test_parse_level_names() {
    assert_eq!(parse_level("error"), LogLevel::Error);
    assert_eq!(parse_level("warning"), LogLevel::Warning);
    assert_eq!(parse_level("warn"), LogLevel::Warning);
    assert_eq!(parse_level("debug"), LogLevel::Debug);
    assert_eq!(parse_level("info"), LogLevel::Info);
    assert_eq!(parse_level("trace"), LogLevel::Trace);
    assert_eq!(parse_level("off"), LogLevel::Off);
}

#[test]
fn test_parse_level_numbers() {
    assert_eq!(parse_level("5"), LogLevel::Error);
    assert_eq!(parse_level("4"), LogLevel::Warning);
    assert_eq!(parse_level("3"), LogLevel::Debug);
    assert_eq!(parse_level("2"), LogLevel::Info);
    assert_eq!(parse_level("1"), LogLevel::Trace);
    assert_eq!(parse_level("0"), LogLevel::Off);
}

#[test]
fn test_parse_level_case_insensitive() {
    assert_eq!(parse_level("ERROR"), LogLevel::Error);
    assert_eq!(parse_level("WaRnInG"), LogLevel::Warning);
    assert_eq!(parse_level("Debug"), LogLevel::Debug);
    assert_eq!(parse_level("INFO"), LogLevel::Info);
    assert_eq!(parse_level("tRaCe"), LogLevel::Trace);
    assert_eq!(parse_level("OFF"), LogLevel::Off);
}

#[test]
fn test_parse_level_unknown_is_sentinel() {
    assert_eq!(parse_level(""), LogLevel::ALL);
    assert_eq!(parse_level("verbose"), LogLevel::ALL);
    assert_eq!(parse_level("6"), LogLevel::ALL);
    assert_eq!(parse_level("errors"), LogLevel::ALL);
}

#[test]
fn test_admits_matrix() {
    let reals = [
        LogLevel::Trace,
        LogLevel::Info,
        LogLevel::Debug,
        LogLevel::Warning,
        LogLevel::Error,
    ];
    // rank order within `reals` is its index plus one
    for (ti, t) in reals.iter().enumerate() {
        for (si, s) in reals.iter().enumerate() {
            assert_eq!(t.admits(*s), si >= ti, "threshold {t:?} record {s:?}");
        }
        // Off as a threshold drops everything; the sentinel admits everything
        assert!(!LogLevel::Off.admits(*t));
        assert!(LogLevel::ALL.admits(*t));
        // every threshold but Off admits plain-text (Off) records
        assert!(t.admits(LogLevel::Off));
    }
    assert!(LogLevel::ALL.admits(LogLevel::Off));
    assert!(!LogLevel::Off.admits(LogLevel::Off));
}

#[test]
fn test_format_line_exact() {
    let line = format_line(
        "2024-01-02 03:04:05.006 +00:00",
        LogLevel::Info,
        "main",
        "x.rs",
        42,
        "Hello, world!",
    );
    assert_eq!(
        line,
        "[2024-01-02 03:04:05.006 +00:00] [INFO] [main] [x.rs:42] Hello, world!\n"
    );
}

#[test]
fn test_format_line_number_edges() {
    let low = format_line("T", LogLevel::Debug, "main", "a.rs", 0, "m");
    assert_eq!(low, "[T] [DEBUG] [main] [a.rs:0] m\n");
    let high = format_line("T", LogLevel::Error, "main", "a.rs", u32::MAX, "m");
    assert_eq!(high, "[T] [ERROR] [main] [a.rs:4294967295] m\n");
}

#[test]
fn test_format_line_empty_message() {
    let line = format_line("T", LogLevel::Trace, "w", "a.rs", 7, "");
    assert_eq!(line, "[T] [TRACE] [w] [a.rs:7] \n");
}

#[test]
fn test_format_round_trip_fields() {
    let line = format_line(
        "2024-01-02 03:04:05.006 +00:00",
        LogLevel::Warning,
        "T-3",
        "src/widget.rs",
        137,
        "spline reticulated",
    );
    // read the fields back as the format regex would
    let rest = line.strip_prefix('[').unwrap();
    let (ts, rest) = rest.split_once(']').unwrap();
    let rest = rest.strip_prefix(" [").unwrap();
    let (label, rest) = rest.split_once(']').unwrap();
    let rest = rest.strip_prefix(" [").unwrap();
    let (thread, rest) = rest.split_once(']').unwrap();
    let rest = rest.strip_prefix(" [").unwrap();
    let (filepath, rest) = rest.split_once(':').unwrap();
    let (digits, rest) = rest.split_once(']').unwrap();
    let message = rest.strip_prefix(' ').unwrap().strip_suffix('\n').unwrap();
    assert_eq!(ts, "2024-01-02 03:04:05.006 +00:00");
    assert_eq!(label, "WARNING");
    assert_eq!(thread, "T-3");
    assert_eq!(filepath, "src/widget.rs");
    assert_eq!(digits.parse::<u32>().unwrap(), 137);
    assert_eq!(message, "spline reticulated");
}

#[test]
fn test_format_line_newline_passthrough() {
    // a message holding a newline is passed through verbatim, so the one
    // record spans two apparent lines
    let line = format_line("T", LogLevel::Info, "main", "a.rs", 1, "a\nb");
    assert_eq!(line, "[T] [INFO] [main] [a.rs:1] a\nb\n");
    assert_eq!(line.matches('\n').count(), 2);
}
