use controller_worker::logging::{
    controller_log_path, error, format_record, info, log_line, worker_log_path, Level, LogRecord,
    TIMESTAMP_PATTERN,
};

#[test]
fn level_labels_are_upper_case_names() {
    assert_eq!(Level::Error.label(), "ERROR");
    assert_eq!(Level::Warn.label(), "WARN");
    assert_eq!(Level::Info.label(), "INFO");
    assert_eq!(Level::Debug.label(), "DEBUG");
    assert_eq!(Level::Trace.label(), "TRACE");
}

#[test]
fn info_and_above_are_enabled() {
    assert!(Level::Error.enabled());
    assert!(Level::Warn.enabled());
    assert!(Level::Info.enabled());
    assert!(!Level::Debug.enabled());
    assert!(!Level::Trace.enabled());
}

#[test]
fn records_carry_level_and_text() {
    assert_eq!(
        info("a".to_string()),
        LogRecord { level: Level::Info, text: "a".to_string() }
    );
    assert_eq!(
        error("b".to_string()),
        LogRecord { level: Level::Error, text: "b".to_string() }
    );
}

#[test]
fn record_layout_is_exact() {
    assert_eq!(
        format_record(
            "2024-01-02 03:04:05",
            Level::Info,
            "demo::controller",
            "Controller: Starting..."
        ),
        "[2024-01-02 03:04:05 INFO demo::controller] Controller: Starting..."
    );
    assert_eq!(
        format_record("T", Level::Error, "t", "Worker[7]: Failed to read from socket: boom"),
        "[T ERROR t] Worker[7]: Failed to read from socket: boom"
    );
    assert_eq!(format_record("", Level::Warn, "", ""), "[ WARN ] ");
}

#[test]
fn timestamp_pattern_is_date_and_time_to_the_second() {
    assert_eq!(TIMESTAMP_PATTERN, "%Y-%m-%d %H:%M:%S");
}

#[test]
fn log_line_is_stamped_with_a_date_and_a_time() {
    let line = log_line(Level::Info, "demo", "hello");
    assert!(line.starts_with('['));
    assert!(line.ends_with(" INFO demo] hello"));
    let stamp = &line[1..line.len() - " INFO demo] hello".len()];
    assert_ne!(stamp, TIMESTAMP_PATTERN);
    let bytes = stamp.as_bytes();
    assert_eq!(bytes.len(), 19);
    let mut i = 0;
    while i < bytes.len() {
        match i {
            4 | 7 => assert_eq!(bytes[i], b'-'),
            10 => assert_eq!(bytes[i], b' '),
            13 | 16 => assert_eq!(bytes[i], b':'),
            _ => assert!(bytes[i].is_ascii_digit()),
        }
        i += 1;
    }
}

#[test]
fn log_paths_lie_in_the_log_directory() {
    assert_eq!(controller_log_path(), "/tmp/myapp/controller.log");
    assert_eq!(worker_log_path(4321), "/tmp/myapp/worker_4321.log");
    assert_eq!(worker_log_path(0), "/tmp/myapp/worker_0.log");
    assert_eq!(worker_log_path(u32::MAX), "/tmp/myapp/worker_4294967295.log");
}
