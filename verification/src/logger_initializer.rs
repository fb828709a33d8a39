//! What the process-wide logger is configured with at startup.

use crate::log_level::{level_from_value, resolution_view, resolve_log_level};
use crate::log_level::{LogLevel, LogLevelError};
use crate::parameter_finder::{find_value_for, tokens};
use vstd::prelude::*;

verus! {

/// The configuration of the logging sink. The directory that the log file is
/// written to is the platform's place for temporary files, which only the
/// running process knows.
#[derive(Clone, Copy, Debug, PartialEq, Eq, Structural)]
pub struct LoggerSettings {
    /// The verbosity.
    pub level: LogLevel,
    /// Whether the log is written to a file.
    pub log_to_file: bool,
    /// Whether the place of the log file is announced on the console.
    pub print_message: bool,
    /// Whether log lines of level info and above are echoed to the console.
    pub duplicate_to_console: bool,
    /// Whether timestamps are left out.
    pub suppress_timestamp: bool,
}

/// The settings for a given verbosity: a log file, announced and echoed on
/// the console, without timestamps.
pub open spec fn settings_for(level: LogLevel) -> LoggerSettings {
    LoggerSettings {
        level,
        log_to_file: true,
        print_message: true,
        duplicate_to_console: true,
        suppress_timestamp: true,
    }
}

/// The logger initializer of a production process.
#[derive(Clone, Copy, Debug, PartialEq, Eq, Structural)]
pub struct LoggerInitializerWrapperReal {}

impl LoggerInitializerWrapperReal {
    /// Resolves the verbosity that `args` asks for: the level named after
    /// the first `--log_level`, `Warn` where the flag is absent, and an error
    /// where the flag is the last token or the token after it names no level.
    pub fn get_log_level(args: &Vec<String>) -> (result: Result<LogLevel, LogLevelError>)
        ensures
            resolution_view(result) == resolve_log_level(tokens(args@)),
    {
        match find_value_for(args, "--log_level") {
            Ok(Some(value)) => level_from_value(value),
            Ok(None) => Ok(LogLevel::Warn),
            Err(_) => Err(LogLevelError::MissingValue),
        }
    }

    /// Works out the logger's configuration from the argument list: the level
    /// is the one that the list resolves to, the rest is fixed. Fails as the
    /// resolution of the level does.
    pub fn settings(args: &Vec<String>) -> (result: Result<LoggerSettings, LogLevelError>)
        ensures
            match resolve_log_level(tokens(args@)) {
                Ok(level) => result == Ok::<LoggerSettings, LogLevelError>(settings_for(level)),
                Err(e) => result is Err && result->Err_0@ == e,
            },
    {
        match LoggerInitializerWrapperReal::get_log_level(args) {
            Ok(level) => Ok(
                LoggerSettings {
                    level,
                    log_to_file: true,
                    print_message: true,
                    duplicate_to_console: true,
                    suppress_timestamp: true,
                },
            ),
            Err(e) => Err(e),
        }
    }
}

} // verus!
