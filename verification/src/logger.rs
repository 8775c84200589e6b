//! The leveled logging front: which messages pass the configured level.
//!
//! The sink that prints them lives outside the library; these methods return
//! whether the message passes the filter, and the caller forwards it.

use vstd::prelude::*;

verus! {

#[derive(Debug, Clone, Copy, PartialEq, Eq)]
pub enum LogLevel {
    Trace,
    Debug,
    Info,
    Warn,
    Error,
}

/// Severity order of the levels, lowest first.
pub open spec fn level_rank(l: LogLevel) -> int {
    match l {
        LogLevel::Trace => 0,
        LogLevel::Debug => 1,
        LogLevel::Info => 2,
        LogLevel::Warn => 3,
        LogLevel::Error => 4,
    }
}

impl LogLevel {
    /// The level's lower-case name, as the logging environment expects it.
    pub fn as_str(&self) -> (r: &'static str)
        ensures
            r@ == match self {
                LogLevel::Trace => "trace"@,
                LogLevel::Debug => "debug"@,
                LogLevel::Info => "info"@,
                LogLevel::Warn => "warn"@,
                LogLevel::Error => "error"@,
            },
    {
        match self {
            LogLevel::Trace => "trace",
            LogLevel::Debug => "debug",
            LogLevel::Info => "info",
            LogLevel::Warn => "warn",
            LogLevel::Error => "error",
        }
    }

    fn rank(&self) -> (r: u8)
        ensures
            r as int == level_rank(*self),
    {
        match self {
            LogLevel::Trace => 0,
            LogLevel::Debug => 1,
            LogLevel::Info => 2,
            LogLevel::Warn => 3,
            LogLevel::Error => 4,
        }
    }
}

#[derive(Debug, Clone, Copy)]
pub struct Logger {
    pub level: LogLevel,
}

impl Logger {
    pub fn new() -> (r: Self)
        ensures
            r.level == LogLevel::Trace,
    {
        Logger { level: LogLevel::Trace }
    }

    /// Whether a message at `level` passes this logger's filter.
    pub fn enabled(&self, level: LogLevel) -> (r: bool)
        ensures
            r == (level_rank(self.level) <= level_rank(level)),
    {
        self.level.rank() <= level.rank()
    }

    pub fn debug(&self, message: &str) -> (r: bool)
        ensures
            r == (level_rank(self.level) <= level_rank(LogLevel::Debug)),
    {
        let _ = message;
        self.enabled(LogLevel::Debug)
    }

    pub fn info(&self, message: &str) -> (r: bool)
        ensures
            r == (level_rank(self.level) <= level_rank(LogLevel::Info)),
    {
        let _ = message;
        self.enabled(LogLevel::Info)
    }

    pub fn warn(&self, message: &str) -> (r: bool)
        ensures
            r == (level_rank(self.level) <= level_rank(LogLevel::Warn)),
    {
        let _ = message;
        self.enabled(LogLevel::Warn)
    }

    pub fn error(&self, message: &str) -> (r: bool)
        ensures
            r == (level_rank(self.level) <= level_rank(LogLevel::Error)),
    {
        let _ = message;
        self.enabled(LogLevel::Error)
    }
}

/// A component that can hand out the logger it reports through.
pub trait LoggerTrait {
    fn get_logger(&self) -> Logger {
        Logger::new()
    }
}

} // verus!
