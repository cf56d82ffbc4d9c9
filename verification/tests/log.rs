use flv_demux::log::{
    LogCallbackSlot, LogLevel, TracingLevel, log_callback_set, log_callback_tracing,
    log_callback_unset,
};

#[test]
fn test_log_level_as_str_using_from_i32() {
    let test_cases = [
        (LogLevel::Quiet, "quiet"),
        (LogLevel::Panic, "panic"),
        (LogLevel::Fatal, "fatal"),
        (LogLevel::Error, "error"),
        (LogLevel::Warning, "warning"),
        (LogLevel::Info, "info"),
        (LogLevel::Verbose, "verbose"),
        (LogLevel::Debug, "debug"),
        (LogLevel::Trace, "trace"),
        (LogLevel::from_code(100), "unknown(100)"),
        (LogLevel::from_code(-1), "unknown(-1)"),
    ];

    for &(input, expected) in &test_cases {
        let log_level = input;
        assert_eq!(
            log_level.display_string(),
            expected,
            "Expected '{expected}' for input {input:?}, but got '{log_level:?}'"
        );
    }
}

#[test]
fn log_level_codes_round_trip() {
    for code in [-8, 0, 8, 16, 24, 32, 40, 48, 56, -1, 100, i32::MIN, i32::MAX] {
        assert_eq!(LogLevel::from_code(code).code(), code);
    }
    assert_eq!(LogLevel::from_code(24), LogLevel::Warning);
    assert_eq!(LogLevel::from_code(-8), LogLevel::Quiet);
    assert_eq!(LogLevel::from_code(100), LogLevel::Unknown(100));
}

#[test]
fn callback_slot_set_replaces_and_unset_clears() {
    let mut slot: LogCallbackSlot<u32> = LogCallbackSlot::new();
    assert!(slot.current().is_none());
    log_callback_set(&mut slot, 1);
    assert_eq!(*slot.current(), Some(1));
    log_callback_set(&mut slot, 2);
    assert_eq!(*slot.current(), Some(2));
    log_callback_unset(&mut slot);
    assert!(slot.current().is_none());
    log_callback_unset(&mut slot);
    assert!(slot.current().is_none());
}

#[test]
fn tracing_line_rendering() {
    let (level, line) = log_callback_tracing(LogLevel::Warning, None, "Test warning log message");
    assert_eq!(level, TracingLevel::Warn);
    assert_eq!(line, "warning: ffmpeg @ Test warning log message");

    let (level, line) = log_callback_tracing(LogLevel::Info, Some("h264"), "opened");
    assert_eq!(level, TracingLevel::Info);
    assert_eq!(line, "info: h264 @ opened");

    let (level, line) = log_callback_tracing(LogLevel::Verbose, None, "x");
    assert_eq!(level, TracingLevel::Trace);
    assert_eq!(line, "verbose: ffmpeg @ x");

    let (level, line) = log_callback_tracing(LogLevel::Fatal, None, "x");
    assert_eq!(level, TracingLevel::Error);
    assert_eq!(line, "fatal: ffmpeg @ x");

    let (level, line) = log_callback_tracing(LogLevel::from_code(100), None, "x");
    assert_eq!(level, TracingLevel::Debug);
    assert_eq!(line, "unknown(100): ffmpeg @ x");
}

#[test]
fn tracing_demotes_known_false_positive() {
    let message = "deprecated pixel format used, make sure you did set range correctly";
    let (level, line) = log_callback_tracing(LogLevel::Trace, None, message);
    assert_eq!(level, TracingLevel::Debug);
    assert_eq!(line, format!("debug: ffmpeg @ {message}"));
}
