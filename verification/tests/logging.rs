use errox::{Config, LogLevel};

#[test]
fn calculate_precedence() {
    assert!(errox::calculate_precedence(
        &LogLevel::Trace,
        &Config { log_level: LogLevel::Trace, time: true }
    ));
    assert!(!errox::calculate_precedence(
        &LogLevel::Trace,
        &Config { log_level: LogLevel::Error, time: true }
    ));
}

#[test]
fn error_format() {
    assert_eq!(
        errox::error_format(
            LogLevel::Trace,
            "When the".to_string(),
            &Config { log_level: LogLevel::Error, time: true },
            0
        ),
        None
    );
    if let None = errox::error_format(
        LogLevel::Error,
        "When the".to_string(),
        &Config { log_level: LogLevel::Trace, time: true },
        0,
    ) {
        panic!();
    }
}

#[test]
fn precedence_follows_the_total_order() {
    let min_error = Config { log_level: LogLevel::Error, time: true };
    assert!(!errox::calculate_precedence(&LogLevel::Trace, &min_error));
    assert!(!errox::calculate_precedence(&LogLevel::Debug, &min_error));
    assert!(!errox::calculate_precedence(&LogLevel::Info, &min_error));
    assert!(!errox::calculate_precedence(&LogLevel::Warning, &min_error));
    assert!(errox::calculate_precedence(&LogLevel::Error, &min_error));
    let min_info = Config { log_level: LogLevel::Info, time: false };
    assert!(!errox::calculate_precedence(&LogLevel::Debug, &min_info));
    assert!(errox::calculate_precedence(&LogLevel::Warning, &min_info));
    assert!(errox::calculate_precedence(&LogLevel::Error, &min_info));
}

#[test]
fn every_severity_passes_itself_as_minimum() {
    let levels = [
        LogLevel::Trace,
        LogLevel::Debug,
        LogLevel::Info,
        LogLevel::Warning,
        LogLevel::Error,
    ];
    for level in levels {
        assert!(errox::calculate_precedence(
            &level,
            &Config { log_level: level, time: false }
        ));
    }
}

#[test]
fn filtered_messages_produce_nothing() {
    let min_warning = Config { log_level: LogLevel::Warning, time: true };
    assert_eq!(errox::format_message(LogLevel::Trace, "x", &min_warning, 3), None);
    assert_eq!(errox::format_message(LogLevel::Info, "", &min_warning, 3), None);
    assert_eq!(
        errox::error_format(LogLevel::Debug, "".to_string(), &min_warning, 3),
        None
    );
}

#[test]
fn structural_shape_of_an_emitted_line() {
    let cfg = Config { log_level: LogLevel::Info, time: false };
    assert_eq!(
        errox::format_message(LogLevel::Warning, "disk full", &cfg, 0),
        Some("warning: disk full".to_string())
    );
}

#[test]
fn time_prefix_present_exactly_when_configured() {
    let with_time = Config { log_level: LogLevel::Trace, time: true };
    assert_eq!(
        errox::format_message(LogLevel::Info, "m", &with_time, 5),
        Some("[5] info: m".to_string())
    );
    let without_time = Config { log_level: LogLevel::Trace, time: false };
    let line = errox::format_message(LogLevel::Info, "m", &without_time, 5).unwrap();
    assert!(!line.starts_with('['));
    assert_eq!(line, "info: m");
}

#[test]
fn empty_message_still_yields_a_prefixed_line() {
    let cfg = Config { log_level: LogLevel::Trace, time: true };
    assert_eq!(
        errox::format_message(LogLevel::Error, "", &cfg, 0),
        Some("[0] error: ".to_string())
    );
}

#[test]
fn trace_below_error_minimum_is_dropped() {
    let cfg = Config { log_level: LogLevel::Error, time: false };
    assert_eq!(errox::format_message(LogLevel::Trace, "x", &cfg, 0), None);
    assert_eq!(errox::error_format(LogLevel::Trace, "x".to_string(), &cfg, 0), None);
    let logger = errox::Logger::new(cfg, 0);
    errox::trace("x", &logger);
}

#[test]
fn colored_line_carries_the_message() {
    let cfg = Config { log_level: LogLevel::Trace, time: false };
    let line = errox::error_format(LogLevel::Error, "boom".to_string(), &cfg, 0).unwrap();
    assert!(line.ends_with("boom"));
    assert!(line.contains("error"));
}

#[test]
fn decimal_rendering() {
    assert_eq!(errox::u64_to_dec(0), "0");
    assert_eq!(errox::u64_to_dec(9), "9");
    assert_eq!(errox::u64_to_dec(10), "10");
    assert_eq!(errox::u64_to_dec(42), "42");
    assert_eq!(errox::u64_to_dec(1234567890), "1234567890");
    assert_eq!(errox::u64_to_dec(u64::MAX), "18446744073709551615");
}

#[test]
fn elapsed_seconds_between_readings() {
    assert_eq!(errox::elapsed_between(10, 3), 7);
    assert_eq!(errox::elapsed_between(3, 3), 0);
    assert_eq!(errox::elapsed_between(2, 3), 0);
    assert!(errox::current_time_secs().is_some());
    assert!(errox::secs_elapsed(0).is_some());
}

#[test]
fn severity_ranks_ascend() {
    assert!(errox::rank(&LogLevel::Trace) < errox::rank(&LogLevel::Debug));
    assert!(errox::rank(&LogLevel::Debug) < errox::rank(&LogLevel::Info));
    assert!(errox::rank(&LogLevel::Info) < errox::rank(&LogLevel::Warning));
    assert!(errox::rank(&LogLevel::Warning) < errox::rank(&LogLevel::Error));
}
