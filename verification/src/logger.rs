//! The logging options: their defaults and how the command line overrides
//! them.

use crate::cli::{Cli, LogFileLevel};
use crate::path::{join, joined};
use vstd::prelude::*;

verus! {

/// Where and how much to log.
#[derive(Debug)]
pub struct LogOptions {
    log_file_path: String,
    log_file_level: LogFileLevel,
    stdout_log_level: LogFileLevel,
}

/// The logging options as plain values.
pub struct LogOptionsView {
    pub log_file_path: Seq<char>,
    pub log_file_level: LogFileLevel,
    pub stdout_log_level: LogFileLevel,
}

impl View for LogOptions {
    type V = LogOptionsView;

    closed spec fn view(&self) -> LogOptionsView {
        LogOptionsView {
            log_file_path: self.log_file_path@,
            log_file_level: self.log_file_level,
            stdout_log_level: self.stdout_log_level,
        }
    }
}

/// The options after the command line has been applied to `options`: what
/// the command line gives stands, what it leaves out stays.
pub open spec fn applied(options: LogOptionsView, cli: Cli) -> LogOptionsView {
    LogOptionsView {
        log_file_path: match cli.log_file_path {
            Some(path) => path@,
            None => options.log_file_path,
        },
        log_file_level: match cli.log_file_level {
            Some(level) => level,
            None => options.log_file_level,
        },
        stdout_log_level: match cli.log_stdout_level {
            Some(level) => level,
            None => options.stdout_log_level,
        },
    }
}

/// The log file used where none is given: `.redwood.log` in the user's home.
pub fn default_log_path(home: &str) -> (path: String)
    ensures
        path@ == joined(home@, ".redwood.log"@),
{
    join(home, ".redwood.log")
}

impl LogOptions {
    /// The options used where the command line gives none: the default log
    /// file, nothing logged to it, and `Info` on standard output.
    pub fn new(home: &str) -> (options: LogOptions)
        ensures
            options@ == (LogOptionsView {
                log_file_path: joined(home@, ".redwood.log"@),
                log_file_level: LogFileLevel::Off,
                stdout_log_level: LogFileLevel::Info,
            }),
    {
        LogOptions {
            log_file_path: default_log_path(home),
            log_file_level: LogFileLevel::Off,
            stdout_log_level: LogFileLevel::Info,
        }
    }

    /// The options with what the command line gives put in place of what
    /// they held.
    pub fn apply_cli(self, cli: &Cli) -> (options: LogOptions)
        ensures
            options@ == applied(self@, *cli),
    {
        LogOptions {
            log_file_path: match &cli.log_file_path {
                Some(path) => path.clone(),
                None => self.log_file_path,
            },
            log_file_level: match cli.log_file_level {
                Some(level) => level,
                None => self.log_file_level,
            },
            stdout_log_level: match cli.log_stdout_level {
                Some(level) => level,
                None => self.stdout_log_level,
            },
        }
    }

    /// The file that is logged to.
    pub fn log_file_path(&self) -> (path: &str)
        ensures
            path@ == self@.log_file_path,
    {
        self.log_file_path.as_str()
    }

    /// How much is logged to the file.
    pub fn log_file_level(&self) -> (level: LogFileLevel)
        ensures
            level == self@.log_file_level,
    {
        self.log_file_level
    }

    /// How much is logged to standard output.
    pub fn stdout_log_level(&self) -> (level: LogFileLevel)
        ensures
            level == self@.stdout_log_level,
    {
        self.stdout_log_level
    }
}

} // verus!
