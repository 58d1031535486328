use vstd::prelude::*;

verus! {

/// Severity of a log record, from most to least severe.
#[derive(Clone, Copy, PartialEq, Eq, Structural, Debug)]
pub enum LogLevel {
    Error,
    Warn,
    Info,
    Debug,
    Trace,
}

/// Severity levels of the emulator's debug output.
#[derive(Clone, Copy, PartialEq, Eq, Structural, Debug)]
pub enum DebugLevel {
    Fatal,
    Error,
    Warning,
    Info,
    Debug,
}

/// Whether records of `level` are written: those of level info and more severe.
pub open spec fn enabled_spec(level: LogLevel) -> bool {
    match level {
        LogLevel::Error | LogLevel::Warn | LogLevel::Info => true,
        _ => false,
    }
}

/// The emulator level a record of `level` is written at, if it is written.
pub open spec fn output_level_spec(level: LogLevel) -> Option<DebugLevel> {
    match level {
        LogLevel::Error => Some(DebugLevel::Error),
        LogLevel::Warn => Some(DebugLevel::Warning),
        LogLevel::Info => Some(DebugLevel::Info),
        _ => None,
    }
}

/// Writes log records to the emulator's debug output.
#[derive(Clone, Copy, PartialEq, Eq, Structural, Debug, Default)]
pub struct MgbaLogger;

impl MgbaLogger {
    /// Whether records of `level` are written.
    pub fn enabled(&self, level: LogLevel) -> (r: bool)
        ensures
            r == enabled_spec(level),
    {
        match level {
            LogLevel::Error | LogLevel::Warn | LogLevel::Info => true,
            _ => false,
        }
    }

    /// The emulator level a record of `level` is written at; `None` when it is not
    /// written.
    pub fn log(&self, level: LogLevel) -> (r: Option<DebugLevel>)
        ensures
            r == output_level_spec(level),
            r.is_some() == enabled_spec(level),
    {
        if !self.enabled(level) {
            return None;
        }
        match level {
            LogLevel::Error => Some(DebugLevel::Error),
            LogLevel::Warn => Some(DebugLevel::Warning),
            LogLevel::Info => Some(DebugLevel::Info),
            LogLevel::Debug => Some(DebugLevel::Debug),
            LogLevel::Trace => None,
        }
    }
}

} // verus!
