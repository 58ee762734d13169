//! Severities: those of log records on the wire, and those of the platform log.

use vstd::prelude::*;

verus! {

/// Severity of a log record. On the wire it is one byte, `0` for `Verbose`
/// up to `4` for `Error`.
#[derive(Clone, Copy, Debug, PartialEq, Eq, Structural)]
pub enum LogPriority {
    Verbose,
    Debug,
    Info,
    Warn,
    Error,
}

impl LogPriority {
    /// The priority byte of a record frame.
    pub open spec fn wire(self) -> u8 {
        match self {
            LogPriority::Verbose => 0,
            LogPriority::Debug => 1,
            LogPriority::Info => 2,
            LogPriority::Warn => 3,
            LogPriority::Error => 4,
        }
    }

    /// The priority that a numeric code from a foreign caller stands for:
    /// the codes `0` to `4` name the five priorities in order, and every
    /// other code is read as `Verbose`.
    pub open spec fn of_code(code: int) -> LogPriority {
        if code == 1 {
            LogPriority::Debug
        } else if code == 2 {
            LogPriority::Info
        } else if code == 3 {
            LogPriority::Warn
        } else if code == 4 {
            LogPriority::Error
        } else {
            LogPriority::Verbose
        }
    }

    /// Returns the priority byte of a record frame.
    pub fn to_wire(self) -> (b: u8)
        ensures
            b == self.wire(),
            b <= 4,
    {
        match self {
            LogPriority::Verbose => 0,
            LogPriority::Debug => 1,
            LogPriority::Info => 2,
            LogPriority::Warn => 3,
            LogPriority::Error => 4,
        }
    }

    /// Reads a numeric code handed over by a foreign caller.
    pub fn from_code(code: i32) -> (p: LogPriority)
        ensures
            p == Self::of_code(code as int),
    {
        match code {
            1 => LogPriority::Debug,
            2 => LogPriority::Info,
            3 => LogPriority::Warn,
            4 => LogPriority::Error,
            _ => LogPriority::Verbose,
        }
    }
}

/// Severity levels of the platform's native log.
#[derive(Clone, Copy, Debug, PartialEq, Eq, Structural)]
pub enum AndroidLogPriority {
    Unknown,
    Default,
    Verbose,
    Debug,
    Info,
    Warn,
    Error,
    Fatal,
    Silent,
}

impl AndroidLogPriority {
    /// The number by which the platform log knows this level.
    pub open spec fn level(self) -> i32 {
        match self {
            AndroidLogPriority::Unknown => 0,
            AndroidLogPriority::Default => 1,
            AndroidLogPriority::Verbose => 2,
            AndroidLogPriority::Debug => 3,
            AndroidLogPriority::Info => 4,
            AndroidLogPriority::Warn => 5,
            AndroidLogPriority::Error => 6,
            AndroidLogPriority::Fatal => 7,
            AndroidLogPriority::Silent => 8,
        }
    }

    /// Returns the number by which the platform log knows this level.
    pub fn to_level(self) -> (n: i32)
        ensures
            n == self.level(),
    {
        match self {
            AndroidLogPriority::Unknown => 0,
            AndroidLogPriority::Default => 1,
            AndroidLogPriority::Verbose => 2,
            AndroidLogPriority::Debug => 3,
            AndroidLogPriority::Info => 4,
            AndroidLogPriority::Warn => 5,
            AndroidLogPriority::Error => 6,
            AndroidLogPriority::Fatal => 7,
            AndroidLogPriority::Silent => 8,
        }
    }
}

} // verus!
