//! The public logging entry points: five severity-specific functions that
//! format a message against a [`Logger`] and write the emitted line to the
//! error stream.

use std::io::Write;
use vstd::prelude::*;
use vstd::string::StringExecFns;

use crate::clock::{current_time_secs, secs_elapsed};
use crate::config::{resolve_config, spec_contents_view, spec_resolve, Config};
use crate::format::error_format;
use crate::level::LogLevel;

verus! {

/// Relies on std::io::stderr and writeln: writes the line and a newline to
/// the error stream; a failed write is ignored.
#[verifier::external_body]
pub(crate) fn write_error_line(line: &str) {
    let _ = writeln!(std::io::stderr(), "{}", line);
}

/// What every logging call reads: the resolved configuration and the clock
/// reading taken at start. Built once at process start and passed by
/// reference to each call.
pub struct Logger {
    pub config: Config,
    pub start_seconds: u64,
}

impl Logger {
    /// A logger over an explicit configuration and start reading.
    pub fn new(config: Config, start_seconds: u64) -> (l: Logger)
        ensures
            l.config == config,
            l.start_seconds == start_seconds,
    {
        Logger { config, start_seconds }
    }

    /// Bootstraps a logger: reads the clock once for the start reading, and
    /// resolves the configuration from the contents of the configuration
    /// file (`None` when the file could not be read). On a load failure one
    /// Error-severity line describing it is written to the error stream and
    /// the hardcoded fallback is used. Yields nothing only when the clock
    /// reports a time before the epoch.
    pub fn init(contents: Option<&str>) -> (l: Option<Logger>)
        ensures
            l matches Some(lg) ==> lg.config == spec_resolve(spec_contents_view(contents)),
    {
        let start = match current_time_secs() {
            Some(s) => s,
            None => return None,
        };
        let (config, _) = resolve_config(contents);
        Some(Logger { config, start_seconds: start })
    }
}

/// Formats `message` at `level` against the logger's configuration and
/// writes the line, if one is emitted, to the error stream.
pub(crate) fn emit(level: LogLevel, message: &str, logger: &Logger) {
    let elapsed = match secs_elapsed(logger.start_seconds) {
        Some(e) => e,
        None => 0,
    };
    if let Some(line) = error_format(level, String::from_str(message), &logger.config, elapsed) {
        write_error_line(line.as_str());
    }
}

/// Prints an error message to stderr.
pub fn error(message: &str, logger: &Logger) {
    emit(LogLevel::Error, message, logger);
}

/// Prints a warning to stderr, if the log level is set low enough.
pub fn warning(message: &str, logger: &Logger) {
    emit(LogLevel::Warning, message, logger);
}

/// Prints an information message to stderr, if the log level is set low
/// enough.
pub fn info(message: &str, logger: &Logger) {
    emit(LogLevel::Info, message, logger);
}

/// Prints a debug message to stderr, if the log level is set low enough.
pub fn debug(message: &str, logger: &Logger) {
    emit(LogLevel::Debug, message, logger);
}

/// Prints a trace message to stderr, if the log level is set low enough.
pub fn trace(message: &str, logger: &Logger) {
    emit(LogLevel::Trace, message, logger);
}

} // verus!
