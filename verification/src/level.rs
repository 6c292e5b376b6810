//! The five severities of the facility, totally ordered by an integer rank:
//! `Trace < Debug < Info < Warning < Error`.

use vstd::prelude::*;
use vstd::string::StringExecFns;

verus! {

/// A message's severity. `Error` is the highest precedence, `Trace` the
/// lowest; the order decides which messages a configuration lets through.
#[derive(Clone, Copy, PartialEq, Eq, Structural, Debug)]
pub enum LogLevel {
    Trace,
    Debug,
    Info,
    Warning,
    Error,
}

/// The rank of a severity under the total order; higher means more severe.
pub open spec fn spec_rank(level: LogLevel) -> int {
    match level {
        LogLevel::Trace => 0,
        LogLevel::Debug => 1,
        LogLevel::Info => 2,
        LogLevel::Warning => 3,
        LogLevel::Error => 4,
    }
}

/// The severity that a configuration file names with `s`, if any: the
/// level's own name, capitalized, as the serialized form spells it.
pub open spec fn spec_level_from_name(s: Seq<char>) -> Option<LogLevel> {
    if s == "Error"@ {
        Some(LogLevel::Error)
    } else if s == "Warning"@ {
        Some(LogLevel::Warning)
    } else if s == "Info"@ {
        Some(LogLevel::Info)
    } else if s == "Debug"@ {
        Some(LogLevel::Debug)
    } else if s == "Trace"@ {
        Some(LogLevel::Trace)
    } else {
        None
    }
}

/// Reads a severity from its serialized name, or nothing when the name is
/// not one of the five.
pub fn level_from_name(name: &str) -> (r: Option<LogLevel>)
    ensures
        r == spec_level_from_name(name@),
{
    let n = String::from_str(name);
    if n == String::from_str("Error") {
        Some(LogLevel::Error)
    } else if n == String::from_str("Warning") {
        Some(LogLevel::Warning)
    } else if n == String::from_str("Info") {
        Some(LogLevel::Info)
    } else if n == String::from_str("Debug") {
        Some(LogLevel::Debug)
    } else if n == String::from_str("Trace") {
        Some(LogLevel::Trace)
    } else {
        None
    }
}

/// The rank of a severity; the sole comparison the facility needs.
pub fn rank(level: &LogLevel) -> (r: u8)
    ensures
        r == spec_rank(*level),
{
    match level {
        LogLevel::Trace => 0,
        LogLevel::Debug => 1,
        LogLevel::Info => 2,
        LogLevel::Warning => 3,
        LogLevel::Error => 4,
    }
}

} // verus!
