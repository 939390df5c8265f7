//! The settings of the client, as values.

use vstd::prelude::*;

verus! {

/// How log lines are laid out.
#[derive(Clone, Copy, Debug, PartialEq, Eq, Structural)]
pub enum LogFormat {
    Plain,
    Json,
}

impl LogFormat {
    /// The layout that suits the output: plain lines for a terminal, JSON for anything
    /// else.
    pub open spec fn suited_to(is_terminal: bool) -> LogFormat {
        if is_terminal {
            LogFormat::Plain
        } else {
            LogFormat::Json
        }
    }

    /// The layout to use where none is set, given whether the output is a terminal.
    pub fn for_terminal(is_terminal: bool) -> (format: LogFormat)
        ensures
            format == LogFormat::suited_to(is_terminal),
    {
        match is_terminal {
            true => LogFormat::Plain,
            false => LogFormat::Json,
        }
    }
}

/// From which severity on events are logged.
#[derive(Clone, Copy, Debug, PartialEq, Eq, Structural)]
pub enum LogLevel {
    Trace,
    Debug,
    Info,
    Warn,
    Error_,
}

impl Default for LogLevel {
    fn default() -> (level: Self)
        ensures
            level == LogLevel::Info,
    {
        LogLevel::Info
    }
}

/// The settings that the client starts with.
#[derive(Clone, Debug, PartialEq, Eq)]
pub struct AppConfig {
    /// Logging format to use.
    pub log_format: LogFormat,
    /// Log level.
    pub log_level: LogLevel,
    /// Address at which the server takes registrations.
    pub server_uri: String,
}

impl AppConfig {
    /// The settings that hold where only the server's address is set: the log layout
    /// follows the output, and events are logged from `Info` on.
    pub fn with_defaults(server_uri: String, is_terminal: bool) -> (config: AppConfig)
        ensures
            config.server_uri == server_uri,
            config.log_format == LogFormat::suited_to(is_terminal),
            config.log_level == LogLevel::Info,
    {
        AppConfig {
            log_format: LogFormat::for_terminal(is_terminal),
            log_level: LogLevel::default(),
            server_uri,
        }
    }
}

} // verus!
