use std::io::Write;

use vstd::prelude::*;

verus! {

/// How much a message matters, from the most detailed to the most severe.
#[derive(Clone, Copy, Debug, PartialEq, Eq, Structural)]
pub enum LogLevel {
    Trace,
    Debug,
    Info,
    Warn,
    Error,
}

/// The priority of a level: 0 for errors up to 4 for traces.
pub open spec fn spec_priority(level: LogLevel) -> u32 {
    match level {
        LogLevel::Trace => 4,
        LogLevel::Debug => 3,
        LogLevel::Info => 2,
        LogLevel::Warn => 1,
        LogLevel::Error => 0,
    }
}

/// The level of a priority; every priority above 4 stands for traces.
pub open spec fn spec_from_priority(priority: u32) -> LogLevel {
    if priority == 0 {
        LogLevel::Error
    } else if priority == 1 {
        LogLevel::Warn
    } else if priority == 2 {
        LogLevel::Info
    } else if priority == 3 {
        LogLevel::Debug
    } else {
        LogLevel::Trace
    }
}

/// The fixed-width label of a level: its name in capitals, right-aligned in eight columns.
pub open spec fn spec_label(level: LogLevel) -> Seq<char> {
    match level {
        LogLevel::Trace => "   TRACE"@,
        LogLevel::Debug => "   DEBUG"@,
        LogLevel::Info => "    INFO"@,
        LogLevel::Warn => "    WARN"@,
        LogLevel::Error => "   ERROR"@,
    }
}

impl LogLevel {
    pub fn priority(&self) -> (r: u32)
        ensures
            r == spec_priority(*self),
    {
        match self {
            LogLevel::Trace => 4,
            LogLevel::Debug => 3,
            LogLevel::Info => 2,
            LogLevel::Warn => 1,
            LogLevel::Error => 0,
        }
    }

    pub fn from_priority(priority: u32) -> (r: LogLevel)
        ensures
            r == spec_from_priority(priority),
    {
        match priority {
            0 => LogLevel::Error,
            1 => LogLevel::Warn,
            2 => LogLevel::Info,
            3 => LogLevel::Debug,
            4 => LogLevel::Trace,
            _ => LogLevel::Trace,
        }
    }

    /// The level that a `Logging.Level` setting names: 0 to 3 name errors, warnings, info
    /// and debug messages; any other value names traces.
    pub fn from_config_level(value: i32) -> (r: LogLevel)
        ensures
            r == (if 0 <= value <= 3 {
                spec_from_priority(value as u32)
            } else {
                LogLevel::Trace
            }),
    {
        match value {
            0 => LogLevel::Error,
            1 => LogLevel::Warn,
            2 => LogLevel::Info,
            3 => LogLevel::Debug,
            _ => LogLevel::Trace,
        }
    }

    /// The fixed-width label that starts a logged line.
    pub fn label(&self) -> (r: &'static str)
        ensures
            r@ == spec_label(*self),
    {
        match self {
            LogLevel::Trace => "   TRACE",
            LogLevel::Debug => "   DEBUG",
            LogLevel::Info => "    INFO",
            LogLevel::Warn => "    WARN",
            LogLevel::Error => "   ERROR",
        }
    }
}

/// Reading a level's priority back gives the level again, and a priority up to 4 survives
/// the way through its level.
pub proof fn lemma_priority_roundtrip(level: LogLevel, priority: u32)
    ensures
        spec_from_priority(spec_priority(level)) == level,
        priority <= 4 ==> spec_priority(spec_from_priority(priority)) == priority,
        priority > 4 ==> spec_from_priority(priority) == LogLevel::Trace,
{
}

/// A sink for log messages.
pub trait Logger {
    fn log(&self, level: LogLevel, msg: &str);
}

/// A logger that prints each message at or above its level on standard output.
pub struct PrintlnLogger {
    level: LogLevel,
}

impl PrintlnLogger {
    pub closed spec fn level(self) -> LogLevel {
        self.level
    }

    pub fn new(level: LogLevel) -> (r: Self)
        ensures
            r.level() == level,
    {
        Self { level }
    }

    /// Whether a message of `level` gets printed: its priority is at most that of the
    /// logger's level.
    pub fn should_log(&self, level: LogLevel) -> (r: bool)
        ensures
            r == (spec_priority(level) <= spec_priority(self.level())),
    {
        level.priority() <= self.level.priority()
    }

    /// The line that logging `msg` at `level` writes: the level's label, a space and the
    /// message, where the level is at or above the logger's; nothing otherwise.
    pub fn log_line(&self, level: LogLevel, msg: &str) -> (r: Option<String>)
        ensures
            r is Some <==> spec_priority(level) <= spec_priority(self.level()),
            r matches Some(line) ==> line@ == spec_label(level) + " "@ + msg@,
    {
        if self.should_log(level) {
            let mut line = String::from_str(level.label());
            line.append(" ");
            line.append(msg);
            Some(line)
        } else {
            None
        }
    }
}

/// Writes `line` and a line break on standard output (std's `writeln!` on
/// `std::io::stdout()`), and panics where the write fails, as `println!` does; nothing
/// is claimed of it.
#[verifier::external_body]
fn print_log_line(line: &str) {
    writeln!(std::io::stdout(), "{}", line).expect("failed printing to stdout");
}

impl Logger for PrintlnLogger {
    /// Prints the line that `log_line` gives, if any.
    fn log(&self, level: LogLevel, msg: &str) {
        match self.log_line(level, msg) {
            Some(line) => print_log_line(line.as_str()),
            None => {},
        }
    }
}

} // verus!
