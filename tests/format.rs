use reclog::format::{header_line, join_words, to_nanos, ClockReading, Formatter, TimeSource};
use reclog::output::{choose_output, log_file_name};

fn words(w: &[&str]) -> Vec<String> {
    w.iter().map(|s| s.to_string()).collect()
}

#[test]
fn command_words_are_joined_by_spaces() {
    assert_eq!(join_words(&words(&["echo", "hello", "world"])), "echo hello world");
    assert_eq!(join_words(&words(&["ls"])), "ls");
    assert_eq!(join_words(&words(&[])), "");
}

#[test]
fn header_line_layout() {
    let h = header_line("box", "linux", "x86_64", "2024-01-02 03:04:05 +0000", "echo hi");
    assert_eq!(
        h,
        "# HOST=[box] OS=[linux_x86_64] TIME=[2024-01-02 03:04:05 +0000] CMD=[echo hi]\n"
    );
}

#[test]
fn header_comes_once_before_timestamps() {
    let mut fm = Formatter::new(true, true, "%S ", TimeSource::Elapsed, &words(&["echo", "hello"]));
    assert!(fm.need_header());
    assert!(fm.need_timestamp());
    let mut buf = String::new();
    assert_eq!(fm.format_prefix(&mut buf), Ok(true));
    assert!(buf.starts_with("# HOST=["));
    assert!(buf.ends_with("] CMD=[echo hello]\n"));
    let os = buf.split("OS=[").nth(1).unwrap().split('_').next().unwrap().to_string();
    assert_eq!(os, os.to_lowercase());
    assert!(!fm.need_header());
    let mut line = String::new();
    assert_eq!(fm.format_prefix(&mut line), Ok(false));
    assert_eq!(line, "00 ");
}

#[test]
fn header_time_field_has_date_time_and_offset() {
    let mut fm = Formatter::new(true, false, "%T", TimeSource::Wall, &words(&["ls", "-l"]));
    let mut buf = String::new();
    assert_eq!(fm.format_header(&mut buf), Ok(()));
    let time = buf.split("TIME=[").nth(1).unwrap().split(']').next().unwrap();
    // YYYY-MM-DD HH:MM:SS +ZZZZ
    assert_eq!(time.len(), 25);
    assert_eq!(&time[4..5], "-");
    assert_eq!(&time[10..11], " ");
    assert_eq!(&time[13..14], ":");
    assert!(time[20..21].eq("+") || time[20..21].eq("-"));
    assert!(buf.ends_with("CMD=[ls -l]\n"));
}

#[test]
fn invalid_wall_pattern_is_an_error() {
    let mut fm = Formatter::new(false, true, "%Q", TimeSource::Wall, &words(&["true"]));
    let mut buf = String::new();
    assert!(fm.format_prefix(&mut buf).is_err());
}

#[test]
fn no_extras_leave_the_buffer_empty() {
    let mut fm = Formatter::new(false, false, "%T ", TimeSource::Wall, &words(&["true"]));
    let mut buf = String::new();
    assert_eq!(fm.format_prefix(&mut buf), Ok(false));
    assert_eq!(buf, "");
}

#[test]
fn wall_timestamp_uses_the_pattern() {
    let mut fm = Formatter::new(false, true, "%Y|", TimeSource::Wall, &words(&["true"]));
    let mut buf = String::from("x");
    assert!(fm.format_timestamp(&mut buf).is_ok());
    assert_eq!(buf.len(), 6);
    assert!(buf.starts_with('x') && buf.ends_with('|'));
}

#[test]
fn invalid_pattern_is_an_error() {
    let mut fm = Formatter::new(false, true, "%Q", TimeSource::Delta, &words(&["true"]));
    let mut buf = String::new();
    assert!(fm.format_timestamp(&mut buf).is_err());
}

#[test]
fn elapsed_clock_counts_from_first_timestamp() {
    let mut fm = Formatter::new(false, true, "%T", TimeSource::Elapsed, &words(&["true"]));
    assert_eq!(fm.clock_offset(1_000), 0);
    assert_eq!(fm.clock_offset(1_500), 500);
    assert_eq!(fm.clock_offset(4_000), 3_000);
}

#[test]
fn delta_clock_counts_from_previous_timestamp() {
    let mut fm = Formatter::new(false, true, "%T", TimeSource::Delta, &words(&["true"]));
    assert_eq!(fm.clock_offset(1_000), 0);
    assert_eq!(fm.clock_offset(1_500), 500);
    assert_eq!(fm.clock_offset(4_000), 2_500);
    assert_eq!(fm.clock_offset(3_000), 0);
}

#[test]
fn clock_readings_become_nanoseconds() {
    assert_eq!(to_nanos(ClockReading { secs: 2, nanos: 5 }), 2_000_000_005);
    assert_eq!(to_nanos(ClockReading { secs: -1, nanos: 5 }), 0);
    assert_eq!(to_nanos(ClockReading { secs: i64::MAX, nanos: 0 }), i64::MAX as u64);
}

#[test]
fn output_path_choices() {
    assert_eq!(choose_output(true, "", false, "echo"), Some(String::new()));
    assert_eq!(choose_output(false, "out.txt", false, "echo"), Some("out.txt".to_string()));
    assert_eq!(
        choose_output(false, "", true, "/usr/bin/reclog_test_cmd.sh"),
        Some("reclog_test_cmd.sh.log".to_string())
    );
    assert_eq!(
        choose_output(false, "", false, "reclog_absent_cmd"),
        Some("reclog_absent_cmd.log".to_string())
    );
    assert_eq!(choose_output(false, "", false, ""), None);
    assert_eq!(choose_output(false, "", false, "/usr/bin/.."), None);
}

#[test]
fn log_file_names_with_suffix() {
    assert_eq!(log_file_name("echo", 0), "echo.log");
    assert_eq!(log_file_name("echo", 1), "echo-1.log");
    assert_eq!(log_file_name("echo", 120), "echo-120.log");
}
