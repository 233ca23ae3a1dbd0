//! A logger: a threshold and a color switch, configured step by step and
//! then installed into a threshold store.

use vstd::prelude::*;

use crate::error::LogError;
use crate::format::{format_line, line_text};
use crate::level::Level;
use crate::threshold::ThresholdStore;

verus! {

/// One candidate log line, as a call site hands it over. It lives for one
/// call and is never kept.
#[derive(Clone, Copy, Debug)]
pub struct Record<'a> {
    /// The severity of the line.
    pub level: Level,
    /// The source file of the call site.
    pub file: &'a str,
    /// The line of the call site in that file.
    pub line: u32,
    /// The message, with its arguments already filled in.
    pub message: &'a str,
}

impl<'a> Record<'a> {
    /// The line that reports this record, with or without color.
    pub open spec fn text(self, color_enabled: bool) -> Seq<char> {
        line_text(self.level, color_enabled, self.file@, self.line as nat, self.message@)
    }
}

/// A logger.
#[derive(Clone, Copy, Debug)]
pub struct SimpleLogger {
    level: Level,
    color: bool,
}

/// What a logger holds, as a value.
pub struct LoggerState {
    /// The most verbose severity that the logger emits.
    pub level: Level,
    /// Whether its lines are wrapped in color.
    pub color: bool,
}

impl View for SimpleLogger {
    type V = LoggerState;

    closed spec fn view(&self) -> LoggerState {
        LoggerState { level: self.level, color: self.color }
    }
}

impl SimpleLogger {
    /// A logger that emits nothing, without color.
    pub fn new() -> (logger: SimpleLogger)
        ensures
            logger@ == (LoggerState { level: Level::Off, color: false }),
    {
        SimpleLogger { level: Level::Off, color: false }
    }

    /// Sets the threshold to the severity that `level` names, without
    /// regard to ASCII case. A text that names none is refused with
    /// `InvalidConfiguration`, and the logger stays as it was.
    pub fn set_log_level(&mut self, level: &str) -> (r: Result<&mut SimpleLogger, LogError>)
        ensures
            r is Ok <==> Level::named(level@) is Some,
            r matches Ok(logger) ==> Level::named(level@) == Some(logger@.level),
            r matches Ok(logger) ==> logger@.color == old(self)@.color,
            r matches Ok(logger) ==> *final(self) == *final(logger),
            r matches Err(e) ==> e == LogError::InvalidConfiguration,
            r is Err ==> *final(self) == *old(self),
    {
        match Level::from_name(level) {
            Ok(parsed) => {
                self.level = parsed;
                Ok(self)
            },
            Err(e) => Err(e),
        }
    }

    /// Switches color on or off.
    pub fn set_color(&mut self, color: bool) -> (logger: &mut SimpleLogger)
        ensures
            logger@ == (LoggerState { level: old(self)@.level, color }),
            *final(self) == *final(logger),
    {
        self.color = color;
        self
    }

    /// Installs the logger into `store`: the store's threshold becomes the
    /// logger's. A store takes a logger once; into one that has a logger
    /// this fails with `AlreadyInitialized` and the store stays as it was.
    /// The logger itself is not changed.
    pub fn init(&mut self, store: &mut ThresholdStore) -> (r: Result<(), LogError>)
        ensures
            *final(self) == *old(self),
            final(store)@ == old(store)@.after_install(old(self)@.level),
            r == (if old(store)@.installed {
                Err::<(), LogError>(LogError::AlreadyInitialized)
            } else {
                Ok::<(), LogError>(())
            }),
    {
        store.install(self.level)
    }

    /// The threshold of the logger.
    pub fn level(&self) -> (level: Level)
        ensures
            level == self@.level,
    {
        self.level
    }

    /// Whether the logger wraps its lines in color.
    pub fn color(&self) -> (color: bool)
        ensures
            color == self@.color,
    {
        self.color
    }

    /// Whether the logger emits lines of the given severity.
    pub fn enabled(&self, level: Level) -> (enabled: bool)
        ensures
            enabled == level.passes(self@.level),
    {
        level.is_enabled(self.level)
    }

    /// The line to hand to the sink for `record`, or nothing where the
    /// logger does not emit the record's severity.
    pub fn log(&self, record: &Record) -> (emitted: Option<String>)
        ensures
            emitted is Some <==> record.level.passes(self@.level),
            emitted matches Some(text) ==> text@ == record.text(self@.color),
    {
        if self.enabled(record.level) {
            Some(format_line(record.level, self.color, record.file, record.line, record.message))
        } else {
            None
        }
    }
}

impl Default for SimpleLogger {
    fn default() -> (logger: SimpleLogger)
        ensures
            logger@ == (LoggerState { level: Level::Off, color: false }),
    {
        SimpleLogger::new()
    }
}

} // verus!
