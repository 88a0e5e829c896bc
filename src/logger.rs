//! Level handling of the serial log sink: which records pass, and the colour
//! each level is printed in.

use crate::colors::{RED, RESET, WHITE, YELLOW};
use crate::text::{decimal, zero_padded, zero_padded_decimal};
use vstd::prelude::*;
use vstd::string::*;

verus! {

/// Severity of a log record, most severe first.
#[derive(Clone, Copy, Debug, PartialEq, Eq, Structural)]
pub enum LogLevel {
    Error,
    Warn,
    Info,
    Debug,
    Trace,
}

/// Rank of a level: lower is more severe.
pub open spec fn level_rank(l: LogLevel) -> int {
    match l {
        LogLevel::Error => 1,
        LogLevel::Warn => 2,
        LogLevel::Info => 3,
        LogLevel::Debug => 4,
        LogLevel::Trace => 5,
    }
}

/// The colour a level is printed in.
pub open spec fn level_color(l: LogLevel) -> Seq<char> {
    match l {
        LogLevel::Error => RED@,
        LogLevel::Warn => YELLOW@,
        _ => WHITE@,
    }
}

/// Name of a level as printed in a record.
pub open spec fn level_name(l: LogLevel) -> Seq<char> {
    match l {
        LogLevel::Error => "ERROR"@,
        LogLevel::Warn => "WARN"@,
        LogLevel::Info => "INFO"@,
        LogLevel::Debug => "DEBUG"@,
        LogLevel::Trace => "TRACE"@,
    }
}

/// Digits of the timestamp, in milliseconds.
pub const TIMESTAMP_WIDTH: usize = 12;

/// What stands before a record's message: colour, zero-padded timestamp,
/// level and source file.
pub open spec fn record_head(l: LogLevel, millis: u64, file: Seq<char>) -> Seq<char> {
    level_color(l) + "["@ + zero_padded(decimal(millis as nat), TIMESTAMP_WIDTH as nat) + "] <"@ + level_name(l)
        + "> "@ + file + ": "@
}

/// The file shown for a record: its own, or `unknown`.
pub open spec fn file_shown(file: Option<&str>) -> Seq<char> {
    match file {
        Some(f) => f@,
        None => "unknown"@,
    }
}

/// What follows a record's message: colour reset and line end.
pub open spec fn record_tail() -> Seq<char> {
    RESET@ + "\r\n"@
}

/// Log sink that writes coloured records to the serial console.
pub struct SerialLogger;

impl SerialLogger {
    pub fn new() -> (r: SerialLogger) {
        SerialLogger
    }

    /// Map a level to its ANSI colour escape.
    pub fn get_level_color(level: LogLevel) -> (r: &'static str)
        ensures
            r@ == level_color(level),
    {
        match level {
            LogLevel::Error => RED,
            LogLevel::Warn => YELLOW,
            LogLevel::Info => WHITE,
            LogLevel::Debug => WHITE,
            LogLevel::Trace => WHITE,
        }
    }

    fn level_str(level: LogLevel) -> (r: &'static str)
        ensures
            r@ == level_name(level),
    {
        match level {
            LogLevel::Error => "ERROR",
            LogLevel::Warn => "WARN",
            LogLevel::Info => "INFO",
            LogLevel::Debug => "DEBUG",
            LogLevel::Trace => "TRACE",
        }
    }

    /// The text written before a record's message.
    pub fn record_prefix(level: LogLevel, millis: u64, file: Option<&str>) -> (r: String)
        ensures
            r@ == record_head(level, millis, file_shown(file)),
    {
        let mut s = String::from_str(SerialLogger::get_level_color(level));
        s.append("[");
        let stamp = zero_padded_decimal(millis, TIMESTAMP_WIDTH);
        s.append(stamp.as_str());
        s.append("] <");
        s.append(SerialLogger::level_str(level));
        s.append("> ");
        match file {
            Some(f) => s.append(f),
            None => s.append("unknown"),
        }
        s.append(": ");
        s
    }

    /// The text written after a record's message.
    pub fn record_suffix() -> (r: String)
        ensures
            r@ == record_tail(),
    {
        let mut s = String::from_str(RESET);
        s.append("\r\n");
        s
    }

    /// Records up to `Info` pass; `Debug` and `Trace` are dropped.
    pub fn enabled(&self, level: LogLevel) -> (r: bool)
        ensures
            r == (level_rank(level) <= level_rank(LogLevel::Info)),
    {
        match level {
            LogLevel::Error | LogLevel::Warn | LogLevel::Info => true,
            LogLevel::Debug | LogLevel::Trace => false,
        }
    }
}

} // verus!
