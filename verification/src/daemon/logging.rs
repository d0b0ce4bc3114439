//! How loud the daemon logs.

use vstd::prelude::*;

verus! {

/// The most verbose level of messages that is logged.
#[derive(Debug, Clone, Copy, PartialEq, Eq, Structural)]
pub enum LogLevel {
    Warn,
    Info,
    Debug,
    Trace,
}

/// The level for a command line on which the verbose flag occurs
/// `occurrences` times: warnings only without the flag, one level more for
/// each occurrence, and everything from three on.
pub open spec fn level_for(occurrences: u64) -> LogLevel {
    if occurrences == 0 {
        LogLevel::Warn
    } else if occurrences == 1 {
        LogLevel::Info
    } else if occurrences == 2 {
        LogLevel::Debug
    } else {
        LogLevel::Trace
    }
}

/// The log level that the verbose flags of the command line ask for.
pub fn get_log_filter_level(occurrences: u64) -> (level: LogLevel)
    ensures
        level == level_for(occurrences),
{
    match occurrences {
        0 => LogLevel::Warn,
        1 => LogLevel::Info,
        2 => LogLevel::Debug,
        _ => LogLevel::Trace,
    }
}

} // verus!
