//! How much the command logs, from its quiet flag and verbosity count.
use vstd::prelude::*;

verus! {

/// The most detailed kind of message that is shown.
#[derive(Debug, Clone, Copy, PartialEq, Eq, Structural)]
pub enum LogLevel {
    Off,
    Warn,
    Info,
    Debug,
    Trace,
}

/// Quiet turns logging off; otherwise each repetition of the verbose flag
/// past the first shows one more level, from warnings up to tracing.
pub open spec fn log_level_for(quiet: bool, verbosity: u64) -> LogLevel {
    if quiet {
        LogLevel::Off
    } else if verbosity <= 1 {
        LogLevel::Warn
    } else if verbosity == 2 {
        LogLevel::Info
    } else if verbosity == 3 {
        LogLevel::Debug
    } else {
        LogLevel::Trace
    }
}

/// The log level for the quiet flag and the verbosity count.
pub fn get_log_level(quiet: bool, verbosity: u64) -> (r: LogLevel)
    ensures
        r == log_level_for(quiet, verbosity),
{
    if quiet {
        LogLevel::Off
    } else if verbosity == 0 || verbosity == 1 {
        LogLevel::Warn
    } else if verbosity == 2 {
        LogLevel::Info
    } else if verbosity == 3 {
        LogLevel::Debug
    } else {
        LogLevel::Trace
    }
}

} // verus!
