//! Start-up options of the application.

use vstd::prelude::*;

verus! {

/// The log levels that can be asked for on the command line.
#[derive(Clone, Copy, Debug, PartialEq, Eq, Structural)]
pub enum LogLevel {
    Info,
    Debug,
    Trace,
}

impl Default for LogLevel {
    fn default() -> (level: LogLevel)
        ensures
            level == LogLevel::Info,
    {
        LogLevel::Info
    }
}

/// The verbosity levels of the logger, most severe first.
#[derive(Clone, Copy, Debug, PartialEq, Eq, Structural)]
pub enum Level {
    Error,
    Warn,
    Info,
    Debug,
    Trace,
}

/// What the command line said.
#[derive(Clone, Copy, Debug, PartialEq, Eq, Structural)]
pub struct Args {
    /// Enables physics debug mode.
    pub debug_physics: bool,
    /// Sets the log level.
    pub log_level: LogLevel,
}

/// What the application starts with.
#[derive(Clone, Copy, Debug, PartialEq, Eq, Structural)]
pub struct StartOptions {
    pub debug_physics: bool,
    pub log_level: Level,
}

/// The logger's level for a level asked for on the command line.
pub open spec fn level_of(log_level: LogLevel) -> Level {
    match log_level {
        LogLevel::Info => Level::Info,
        LogLevel::Debug => Level::Debug,
        LogLevel::Trace => Level::Trace,
    }
}

/// The start-up options for the given command line.
pub fn args_to_options(args: Args) -> (options: StartOptions)
    ensures
        options.debug_physics == args.debug_physics,
        options.log_level == level_of(args.log_level),
{
    let log_level = match args.log_level {
        LogLevel::Info => Level::Info,
        LogLevel::Debug => Level::Debug,
        LogLevel::Trace => Level::Trace,
    };
    StartOptions { debug_physics: args.debug_physics, log_level }
}

} // verus!
