//! How much is logged, by the number of times the verbosity flag was given.

use vstd::prelude::*;

verus! {

/// The levels of logging, from the quietest on.
#[derive(Debug, Clone, Copy, PartialEq, Eq, Structural)]
pub enum LogLevel {
    Error,
    Warn,
    Info,
    Debug,
    Trace,
}

impl LogLevel {
    /// The place of the level in the order from `Error` (0) to `Trace` (4).
    pub open spec fn rank(self) -> int {
        match self {
            LogLevel::Error => 0,
            LogLevel::Warn => 1,
            LogLevel::Info => 2,
            LogLevel::Debug => 3,
            LogLevel::Trace => 4,
        }
    }
}

/// The level for a flag given `verbose` times: one level more for each time,
/// up to `Trace`.
pub open spec fn level_for(verbose: u8) -> LogLevel {
    if verbose == 0 {
        LogLevel::Error
    } else if verbose == 1 {
        LogLevel::Warn
    } else if verbose == 2 {
        LogLevel::Info
    } else if verbose == 3 {
        LogLevel::Debug
    } else {
        LogLevel::Trace
    }
}

/// Chooses the level of logging: `Error` without the flag, then `Warn`,
/// `Info` and `Debug`, and `Trace` from the fourth time on.
pub fn log_level(verbose: u8) -> (level: LogLevel)
    ensures
        level == level_for(verbose),
        level.rank() == if verbose < 4 { verbose as int } else { 4 },
{
    match verbose {
        0 => LogLevel::Error,
        1 => LogLevel::Warn,
        2 => LogLevel::Info,
        3 => LogLevel::Debug,
        _ => LogLevel::Trace,
    }
}

/// Giving the flag more often never makes the logging quieter.
pub proof fn lemma_level_grows_with_verbosity(fewer: u8, more: u8)
    requires
        fewer <= more,
    ensures
        level_for(fewer).rank() <= level_for(more).rank(),
{
}

} // verus!
