//! Log levels and their numeric codes in the runtime.

use vstd::prelude::*;
use vstd::std_specs::convert::FromSpecImpl;

verus! {

/// The runtime's code of the trace level.
pub const CELIX_LOG_LEVEL_TRACE: u32 = 0;

/// The runtime's code of the debug level.
pub const CELIX_LOG_LEVEL_DEBUG: u32 = 1;

/// The runtime's code of the info level.
pub const CELIX_LOG_LEVEL_INFO: u32 = 2;

/// The runtime's code of the warning level.
pub const CELIX_LOG_LEVEL_WARNING: u32 = 3;

/// The runtime's code of the error level.
pub const CELIX_LOG_LEVEL_ERROR: u32 = 4;

/// The runtime's code of the fatal level.
pub const CELIX_LOG_LEVEL_FATAL: u32 = 5;

/// The runtime's code for logging switched off.
pub const CELIX_LOG_LEVEL_DISABLED: u32 = 6;

/// Severity of a log message.
#[derive(Debug, Clone, Copy, PartialEq, Eq, Structural)]
pub enum LogLevel {
    Trace,
    Debug,
    Info,
    Warning,
    Error,
    Fatal,
    Disabled,
}

impl LogLevel {
    /// The level that a numeric code stands for. Every code that names no
    /// level reads as `Disabled`.
    pub open spec fn of_code(code: u32) -> LogLevel {
        if code == CELIX_LOG_LEVEL_TRACE {
            LogLevel::Trace
        } else if code == CELIX_LOG_LEVEL_DEBUG {
            LogLevel::Debug
        } else if code == CELIX_LOG_LEVEL_INFO {
            LogLevel::Info
        } else if code == CELIX_LOG_LEVEL_WARNING {
            LogLevel::Warning
        } else if code == CELIX_LOG_LEVEL_ERROR {
            LogLevel::Error
        } else if code == CELIX_LOG_LEVEL_FATAL {
            LogLevel::Fatal
        } else {
            LogLevel::Disabled
        }
    }

    /// The numeric code of a level.
    pub open spec fn code(self) -> u32 {
        match self {
            LogLevel::Trace => CELIX_LOG_LEVEL_TRACE,
            LogLevel::Debug => CELIX_LOG_LEVEL_DEBUG,
            LogLevel::Info => CELIX_LOG_LEVEL_INFO,
            LogLevel::Warning => CELIX_LOG_LEVEL_WARNING,
            LogLevel::Error => CELIX_LOG_LEVEL_ERROR,
            LogLevel::Fatal => CELIX_LOG_LEVEL_FATAL,
            LogLevel::Disabled => CELIX_LOG_LEVEL_DISABLED,
        }
    }

    /// Every level is read back from its own code.
    pub proof fn lemma_level_round_trip(level: LogLevel)
        ensures
            LogLevel::of_code(level.code()) == level,
    {
    }

    /// A code is read back from its level exactly if it names a level; all
    /// other codes collapse to the code of `Disabled`.
    pub proof fn lemma_code_round_trip(code: u32)
        ensures
            code <= CELIX_LOG_LEVEL_DISABLED ==> LogLevel::of_code(code).code() == code,
            code > CELIX_LOG_LEVEL_DISABLED ==> LogLevel::of_code(code).code()
                == CELIX_LOG_LEVEL_DISABLED,
    {
    }
}

impl From<u32> for LogLevel {
    fn from(level: u32) -> (l: LogLevel) {
        if level == CELIX_LOG_LEVEL_TRACE {
            LogLevel::Trace
        } else if level == CELIX_LOG_LEVEL_DEBUG {
            LogLevel::Debug
        } else if level == CELIX_LOG_LEVEL_INFO {
            LogLevel::Info
        } else if level == CELIX_LOG_LEVEL_WARNING {
            LogLevel::Warning
        } else if level == CELIX_LOG_LEVEL_ERROR {
            LogLevel::Error
        } else if level == CELIX_LOG_LEVEL_FATAL {
            LogLevel::Fatal
        } else {
            LogLevel::Disabled
        }
    }
}

impl FromSpecImpl<u32> for LogLevel {
    open spec fn obeys_from_spec() -> bool {
        true
    }

    open spec fn from_spec(level: u32) -> LogLevel {
        LogLevel::of_code(level)
    }
}

impl From<LogLevel> for u32 {
    fn from(level: LogLevel) -> (code: u32) {
        match level {
            LogLevel::Trace => CELIX_LOG_LEVEL_TRACE,
            LogLevel::Debug => CELIX_LOG_LEVEL_DEBUG,
            LogLevel::Info => CELIX_LOG_LEVEL_INFO,
            LogLevel::Warning => CELIX_LOG_LEVEL_WARNING,
            LogLevel::Error => CELIX_LOG_LEVEL_ERROR,
            LogLevel::Fatal => CELIX_LOG_LEVEL_FATAL,
            LogLevel::Disabled => CELIX_LOG_LEVEL_DISABLED,
        }
    }
}

impl FromSpecImpl<LogLevel> for u32 {
    open spec fn obeys_from_spec() -> bool {
        true
    }

    open spec fn from_spec(level: LogLevel) -> u32 {
        level.code()
    }
}

} // verus!
