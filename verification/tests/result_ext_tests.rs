use errox::{Config, ConfigError, Describe, Errox, LogLevel};

#[derive(Debug)]
struct Timeout;

impl Describe for Timeout {
    fn description(&self) -> String {
        "timeout".to_string()
    }
}

#[test]
fn failure_is_logged_and_handed_back_unchanged() {
    let logger = errox::Logger::new(Config { time: false, log_level: LogLevel::Warning }, 0);
    let failed: Result<i32, Timeout> = Err(Timeout);
    match failed.warning(&logger) {
        Err(e) => assert_eq!(e.description(), "timeout"),
        Ok(_) => panic!(),
    }
}

#[test]
fn success_passes_through_untouched() {
    let logger = errox::Logger::new(Config { time: false, log_level: LogLevel::Trace }, 0);
    let ok: Result<i32, Timeout> = Ok(7);
    assert_eq!(ok.info(&logger).unwrap(), 7);
    let ok2: Result<&str, Timeout> = Ok("kept");
    assert_eq!(ok2.error(&logger).unwrap(), "kept");
}

#[test]
fn every_severity_operation_retains_the_result() {
    let logger = errox::Logger::new(Config { time: false, log_level: LogLevel::Error }, 0);
    let failed: Result<u8, Timeout> = Err(Timeout);
    let back = failed.error(&logger).warning(&logger).info(&logger).debug(&logger).trace(&logger);
    match back {
        Err(e) => assert_eq!(e.description(), "timeout"),
        Ok(_) => panic!(),
    }
}

#[test]
fn config_errors_describe_themselves() {
    assert_eq!(ConfigError::Io.description(), "the config file could not be read");
    assert_eq!(ConfigError::Format.description(), "the config file could not be parsed");
}
