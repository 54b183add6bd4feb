//! Log levels and logger settings.
use vstd::prelude::*;
use crate::text::{lower, text_of};
use crate::vocab::{is_word, lower_exec, message};

verus! {

#[verifier::external_type_specification]
#[verifier::external_body]
pub struct ExLevel(tracing::Level);

/// Severity of a log message, from the most verbose to the most severe.
#[derive(Clone, Copy, Debug, PartialEq, Eq, Structural, PartialOrd, Ord)]
pub enum LogLevel {
    Trace,
    Debug,
    Info,
    Warn,
    Error,
    /// Reported at the `error` level of the tracing backend.
    Fatal,
}

/// The level that the tracing backend calls `name`.
pub uninterp spec fn tracing_level_named(name: Seq<char>) -> tracing::Level;

/// Relies on `FromStr for tracing::Level`, which accepts the five names
/// `error`, `warn`, `info`, `debug` and `trace`.
#[verifier::external_body]
fn tracing_level(name: &str) -> (r: Option<tracing::Level>)
    ensures
        (name@ == "error"@ || name@ == "warn"@ || name@ == "info"@ || name@ == "debug"@ || name@
            == "trace"@) ==> r == Some(tracing_level_named(name@)),
{
    name.parse::<tracing::Level>().ok()
}

pub open spec fn level_name(l: LogLevel) -> Seq<char> {
    match l {
        LogLevel::Trace => "trace"@,
        LogLevel::Debug => "debug"@,
        LogLevel::Info => "info"@,
        LogLevel::Warn => "warn"@,
        LogLevel::Error => "error"@,
        LogLevel::Fatal => "fatal"@,
    }
}

/// The name of the tracing level a log level is reported at.
pub open spec fn backend_name(l: LogLevel) -> Seq<char> {
    match l {
        LogLevel::Fatal => "error"@,
        _ => level_name(l),
    }
}

pub open spec fn level_of_name(k: Seq<char>) -> Option<LogLevel> {
    if k == "trace"@ {
        Some(LogLevel::Trace)
    } else if k == "debug"@ {
        Some(LogLevel::Debug)
    } else if k == "info"@ {
        Some(LogLevel::Info)
    } else if k == "warn"@ {
        Some(LogLevel::Warn)
    } else if k == "error"@ {
        Some(LogLevel::Error)
    } else if k == "fatal"@ {
        Some(LogLevel::Fatal)
    } else {
        None
    }
}

impl LogLevel {
    /// The tracing level this level is reported at; `Fatal` is reported as
    /// an error.
    pub fn to_tracing_level(&self) -> (r: tracing::Level)
        ensures
            r == tracing_level_named(backend_name(*self)),
    {
        let name: &str = match self {
            LogLevel::Trace => "trace",
            LogLevel::Debug => "debug",
            LogLevel::Info => "info",
            LogLevel::Warn => "warn",
            LogLevel::Error | LogLevel::Fatal => "error",
        };
        tracing_level(name).unwrap()
    }

    /// The level named by `level_str`, in any ASCII case.
    pub fn from_str(level_str: &str) -> (r: Result<LogLevel, String>)
        ensures
            level_of_name(lower(level_str@)) matches Some(l) ==> r == Ok::<LogLevel, String>(l),
            level_of_name(lower(level_str@)) is None ==> (r matches Err(e) && e@
                == "Invalid log level: "@ + level_str@),
    {
        let k = lower_exec(level_str);
        if is_word(&k, "trace") {
            Ok(LogLevel::Trace)
        } else if is_word(&k, "debug") {
            Ok(LogLevel::Debug)
        } else if is_word(&k, "info") {
            Ok(LogLevel::Info)
        } else if is_word(&k, "warn") {
            Ok(LogLevel::Warn)
        } else if is_word(&k, "error") {
            Ok(LogLevel::Error)
        } else if is_word(&k, "fatal") {
            Ok(LogLevel::Fatal)
        } else {
            Err(message("Invalid log level: ", level_str))
        }
    }

    /// The lower-case name of the level.
    pub fn as_str(&self) -> (r: &'static str)
        ensures
            r@ == level_name(*self),
    {
        match self {
            LogLevel::Trace => "trace",
            LogLevel::Debug => "debug",
            LogLevel::Info => "info",
            LogLevel::Warn => "warn",
            LogLevel::Error => "error",
            LogLevel::Fatal => "fatal",
        }
    }
}

/// Logger settings.
#[derive(Clone, Debug)]
pub struct LogConfig {
    pub enabled: bool,
    pub level_console: LogLevel,
    pub level_file: LogLevel,
    /// Directory of the log files.
    pub file_path: String,
    /// The start of each log file's name; the date is appended.
    pub file_name_prefix: String,
}

impl Default for LogConfig {
    fn default() -> (r: LogConfig)
        ensures
            r.enabled,
            r.level_console == LogLevel::Info,
            r.level_file == LogLevel::Debug,
            r.file_path@ == "~/.llmdocs/logs/"@,
            r.file_name_prefix@ == "llmdoc.log"@,
    {
        LogConfig {
            enabled: true,
            level_console: LogLevel::Info,
            level_file: LogLevel::Debug,
            file_path: text_of("~/.llmdocs/logs/"),
            file_name_prefix: text_of("llmdoc.log"),
        }
    }
}

} // verus!
