//! The level of detail that the engine's log shows.

use vstd::prelude::*;
use vstd::string::StringExecFns;
use crate::text::same_text;

verus! {

/// How much the log shows, from the least to the most.
#[derive(Clone, Copy, Debug, PartialEq, Eq, Structural)]
pub enum LogLevel {
    Error,
    Warn,
    Info,
    Debug,
    Trace,
}

/// Remembers, for the life of the process, whether the log was set up. The
/// set-up is due on the first tick and on no later one.
#[derive(Debug)]
pub struct Startup {
    done: bool,
}

impl Startup {
    /// The set-up was made.
    pub closed spec fn is_done(self) -> bool {
        self.done
    }

    /// The state of a process that has not set up its log yet.
    pub fn new() -> (startup: Startup)
        ensures
            !startup.is_done(),
    {
        Startup { done: false }
    }

    /// Tells whether the set-up is due now, and records that it is made:
    /// `true` the first time it is asked, `false` ever after.
    pub fn begin(&mut self) -> (due: bool)
        ensures
            due == !old(self).is_done(),
            final(self).is_done(),
    {
        let due = !self.done;
        self.done = true;
        due
    }
}

/// The level that a name stands for. The names are those of the levels in
/// lower case; no other text names a level.
pub open spec fn level_named(name: Seq<char>) -> Option<LogLevel> {
    if name == "error"@ {
        Some(LogLevel::Error)
    } else if name == "warn"@ {
        Some(LogLevel::Warn)
    } else if name == "info"@ {
        Some(LogLevel::Info)
    } else if name == "debug"@ {
        Some(LogLevel::Debug)
    } else if name == "trace"@ {
        Some(LogLevel::Trace)
    } else {
        None
    }
}

/// Calls `log::set_max_level` with the level filter of the same name.
/// Nothing is claimed of the call: it has no result.
#[verifier::external_body]
fn apply_max_level(level: LogLevel) {
    log::set_max_level(
        match level {
            LogLevel::Error => log::LevelFilter::Error,
            LogLevel::Warn => log::LevelFilter::Warn,
            LogLevel::Info => log::LevelFilter::Info,
            LogLevel::Debug => log::LevelFilter::Debug,
            LogLevel::Trace => log::LevelFilter::Trace,
        },
    )
}

impl LogLevel {
    /// Reads a level from its name.
    pub fn from_name(name: &str) -> (level: Option<LogLevel>)
        ensures
            level == level_named(name@),
    {
        if same_text(name, "error") {
            Some(LogLevel::Error)
        } else if same_text(name, "warn") {
            Some(LogLevel::Warn)
        } else if same_text(name, "info") {
            Some(LogLevel::Info)
        } else if same_text(name, "debug") {
            Some(LogLevel::Debug)
        } else if same_text(name, "trace") {
            Some(LogLevel::Trace)
        } else {
            None
        }
    }
}

/// Sets the most detailed level that the log shows from here on, by name.
/// A text that names no level changes nothing and is answered with the
/// message `Invalid log level`.
pub fn set_log_level(level: String) -> (r: Result<(), String>)
    ensures
        r is Ok <==> level_named(level@) is Some,
        r matches Err(message) ==> message@ == "Invalid log level"@,
{
    match LogLevel::from_name(level.as_str()) {
        Some(chosen) => {
            apply_max_level(chosen);
            Ok(())
        },
        None => Err(String::from_str("Invalid log level")),
    }
}

} // verus!
