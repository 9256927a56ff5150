//! Logging settings of the configuration file.

use vstd::prelude::*;

verus! {

/// The most verbose level that a log sink lets through; `Off` lets nothing
/// through.
#[derive(Debug, Clone, Copy, PartialEq, Eq, Structural)]
pub enum LevelFilter {
    Off,
    Error,
    Warn,
    Info,
    Debug,
    Trace,
}

/// The position of a filter in the order of verbosity: `Off` is 0 and
/// `Trace` is 5.
pub open spec fn filter_rank(f: LevelFilter) -> int {
    match f {
        LevelFilter::Off => 0,
        LevelFilter::Error => 1,
        LevelFilter::Warn => 2,
        LevelFilter::Info => 3,
        LevelFilter::Debug => 4,
        LevelFilter::Trace => 5,
    }
}

/// The logging section of the configuration.
#[derive(Debug, Clone, Copy, PartialEq, Eq, Structural)]
pub struct Logs {
    /// The level filter of the log file.
    pub file_level: LevelFilter,
}

impl Logs {
    /// The settings of a configuration that does not mention them.
    pub fn default() -> (logs: Self)
        ensures
            logs.file_level == LevelFilter::Info,
    {
        Logs { file_level: LevelFilter::Info }
    }
}

} // verus!
