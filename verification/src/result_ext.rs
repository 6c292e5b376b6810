//! The fallible-result extension: any computation that yields a success or
//! a describable failure can be piped through one of five severity
//! operations, which log the failure's description and hand the computation
//! back unchanged.

use vstd::prelude::*;

use crate::level::LogLevel;
use crate::log::{emit, Logger};

verus! {

/// A failure that can describe itself in one human-readable line.
pub trait Describe {
    /// The human-readable description of this failure.
    fn description(&self) -> String;
}

/// Logs the description of a failed computation at `level` and hands the
/// computation back unchanged; a successful computation is handed back
/// untouched with nothing written. Observation only: no failure becomes a
/// success nor the other way round.
pub fn log_result<T, E: Describe>(result: Result<T, E>, level: LogLevel, logger: &Logger) -> (r:
    Result<T, E>)
    ensures
        r == result,
{
    if let Err(e) = &result {
        let msg = e.description();
        emit(level, msg.as_str(), logger);
    }
    result
}

/// Five chainable severity operations over a fallible computation: each
/// logs the failure, if there is one, at its severity, and in all cases
/// yields the computation unchanged, so a call can stand in a pipeline
/// without altering its outcome.
pub trait Errox<T>: Sized {
    /// What every operation hands back: the computation unchanged.
    spec fn retained(self) -> T;

    /// Logs the failure, if any, at Error severity; yields the computation
    /// unchanged.
    fn error(self, logger: &Logger) -> (r: T)
        ensures
            r == self.retained(),
    ;

    /// Logs the failure, if any, at Warning severity; yields the
    /// computation unchanged.
    fn warning(self, logger: &Logger) -> (r: T)
        ensures
            r == self.retained(),
    ;

    /// Logs the failure, if any, at Info severity; yields the computation
    /// unchanged.
    fn info(self, logger: &Logger) -> (r: T)
        ensures
            r == self.retained(),
    ;

    /// Logs the failure, if any, at Debug severity; yields the computation
    /// unchanged.
    fn debug(self, logger: &Logger) -> (r: T)
        ensures
            r == self.retained(),
    ;

    /// Logs the failure, if any, at Trace severity; yields the computation
    /// unchanged.
    fn trace(self, logger: &Logger) -> (r: T)
        ensures
            r == self.retained(),
    ;
}

impl<T, E: Describe> Errox<Result<T, E>> for Result<T, E> {
    open spec fn retained(self) -> Result<T, E> {
        self
    }

    fn error(self, logger: &Logger) -> (r: Result<T, E>) {
        log_result(self, LogLevel::Error, logger)
    }

    fn warning(self, logger: &Logger) -> (r: Result<T, E>) {
        log_result(self, LogLevel::Warning, logger)
    }

    fn info(self, logger: &Logger) -> (r: Result<T, E>) {
        log_result(self, LogLevel::Info, logger)
    }

    fn debug(self, logger: &Logger) -> (r: Result<T, E>) {
        log_result(self, LogLevel::Debug, logger)
    }

    fn trace(self, logger: &Logger) -> (r: Result<T, E>) {
        log_result(self, LogLevel::Trace, logger)
    }
}

} // verus!
