//! Logging configuration: level, output format and formatting options.
use vstd::prelude::*;
use vstd::string::*;
use crate::text::{lowercase, to_lowercase};

verus! {

/// Log level (trace, debug, info, warn, error)
#[derive(Debug, Clone, Copy, PartialEq, Eq, Structural)]
pub enum LogLevel {
    Trace,
    Debug,
    Info,
    Warn,
    Error,
}

impl LogLevel {
    /// The level's name in upper case, as log filters spell it.
    pub fn as_str(&self) -> (r: &'static str)
        ensures
            r@ == match *self {
                LogLevel::Trace => "TRACE"@,
                LogLevel::Debug => "DEBUG"@,
                LogLevel::Info => "INFO"@,
                LogLevel::Warn => "WARN"@,
                LogLevel::Error => "ERROR"@,
            },
    {
        match self {
            LogLevel::Trace => "TRACE",
            LogLevel::Debug => "DEBUG",
            LogLevel::Info => "INFO",
            LogLevel::Warn => "WARN",
            LogLevel::Error => "ERROR",
        }
    }
}

/// Logging output format
#[derive(Debug, Clone, Copy, PartialEq, Eq, Structural)]
pub enum LogFormat {
    /// Human-readable text format
    Text,
    /// JSON format for structured logging
    Json,
}

impl Default for LogFormat {
    fn default() -> (r: Self)
        ensures
            r == LogFormat::Text,
    {
        LogFormat::Text
    }
}

/// What a format name, already lower-cased, denotes; `given` is the name as written.
pub open spec fn log_format_from_lowercase(given: Seq<char>, lower: Seq<char>) -> std::result::Result<LogFormat, Seq<char>> {
    if lower == "text"@ || lower == "pretty"@ {
        Ok(LogFormat::Text)
    } else if lower == "json"@ {
        Ok(LogFormat::Json)
    } else {
        Err("Invalid log format: "@ + given)
    }
}

/// Format names are read without regard to case: two names with the same lower-case form name
/// the same format, or are both refused.
pub proof fn lemma_log_format_ignores_case(a: Seq<char>, b: Seq<char>)
    requires
        lowercase(a) == lowercase(b),
    ensures
        log_format_from_lowercase(a, lowercase(a)) is Ok <==> log_format_from_lowercase(b, lowercase(b)) is Ok,
        log_format_from_lowercase(a, lowercase(a)) is Ok ==> log_format_from_lowercase(a, lowercase(a))
            == log_format_from_lowercase(b, lowercase(b)),
{
}

impl LogFormat {
    /// Decides the format from its lower-cased name `lower`; `given` is the name as written and
    /// appears in the error.
    pub fn from_lowercase(given: &str, lower: &str) -> (r: std::result::Result<LogFormat, String>)
        ensures
            match (r, log_format_from_lowercase(given@, lower@)) {
                (Ok(a), Ok(b)) => a == b,
                (Err(a), Err(b)) => a@ == b,
                _ => false,
            },
    {
        let l = lower.to_owned();
        if l == String::from_str("text") || l == String::from_str("pretty") {
            Ok(LogFormat::Text)
        } else if l == String::from_str("json") {
            Ok(LogFormat::Json)
        } else {
            let mut m = String::from_str("Invalid log format: ");
            m.append(given);
            Err(m)
        }
    }

    /// Parses a format name, ignoring case: "text" or "pretty" give `Text`, "json" gives `Json`.
    pub fn parse_name(s: &str) -> (r: std::result::Result<LogFormat, String>)
        ensures
            match (r, log_format_from_lowercase(s@, lowercase(s@))) {
                (Ok(a), Ok(b)) => a == b,
                (Err(a), Err(b)) => a@ == b,
                _ => false,
            },
    {
        let lower = to_lowercase(s);
        LogFormat::from_lowercase(s, lower.as_str())
    }
}

impl std::str::FromStr for LogFormat {
    type Err = String;

    /// Parses a format name, ignoring case: "text" or "pretty" give `Text`, "json" gives `Json`.
    fn from_str(s: &str) -> (r: std::result::Result<Self, String>)
        ensures
            match (r, log_format_from_lowercase(s@, lowercase(s@))) {
                (Ok(a), Ok(b)) => a == b,
                (Err(a), Err(b)) => a@ == b,
                _ => false,
            },
    {
        LogFormat::parse_name(s)
    }
}

/// Logging configuration
#[derive(Debug, Clone, Copy)]
pub struct LoggingConfig {
    /// Log level (trace, debug, info, warn, error)
    pub level: LogLevel,
    /// Output format (text or json)
    pub format: LogFormat,
    /// Whether to include span events (enter, exit, close)
    pub span_events: bool,
    /// Whether to include file and line numbers
    pub with_location: bool,
    /// Whether to include thread IDs
    pub with_thread_ids: bool,
    /// Whether to include thread names
    pub with_thread_names: bool,
    /// Whether to include target (module path)
    pub with_target: bool,
}

impl Default for LoggingConfig {
    fn default() -> (r: Self)
        ensures
            r == (LoggingConfig {
                level: LogLevel::Info,
                format: LogFormat::Text,
                span_events: false,
                with_location: true,
                with_thread_ids: false,
                with_thread_names: false,
                with_target: true,
            }),
    {
        LoggingConfig {
            level: LogLevel::Info,
            format: LogFormat::Text,
            span_events: false,
            with_location: true,
            with_thread_ids: false,
            with_thread_names: false,
            with_target: true,
        }
    }
}

impl LoggingConfig {
    /// Create a new logging configuration with the specified level, the rest as by default.
    pub fn new(level: LogLevel) -> (r: Self)
        ensures
            r == (LoggingConfig {
                level,
                format: LogFormat::Text,
                span_events: false,
                with_location: true,
                with_thread_ids: false,
                with_thread_names: false,
                with_target: true,
            }),
    {
        LoggingConfig { level, ..Default::default() }
    }

    /// Set the output format
    pub fn with_format(self, format: LogFormat) -> (r: Self)
        ensures
            r == (LoggingConfig { format, ..self }),
    {
        LoggingConfig { format, ..self }
    }

    /// Enable span events (enter, exit, close)
    pub fn with_span_events(self) -> (r: Self)
        ensures
            r == (LoggingConfig { span_events: true, ..self }),
    {
        LoggingConfig { span_events: true, ..self }
    }

    /// Enable file and line number logging
    pub fn with_location(self, enabled: bool) -> (r: Self)
        ensures
            r == (LoggingConfig { with_location: enabled, ..self }),
    {
        LoggingConfig { with_location: enabled, ..self }
    }

    /// Enable thread ID logging
    pub fn with_thread_ids(self, enabled: bool) -> (r: Self)
        ensures
            r == (LoggingConfig { with_thread_ids: enabled, ..self }),
    {
        LoggingConfig { with_thread_ids: enabled, ..self }
    }

    /// Enable thread name logging
    pub fn with_thread_names(self, enabled: bool) -> (r: Self)
        ensures
            r == (LoggingConfig { with_thread_names: enabled, ..self }),
    {
        LoggingConfig { with_thread_names: enabled, ..self }
    }

    /// Enable target (module path) logging
    pub fn with_target(self, enabled: bool) -> (r: Self)
        ensures
            r == (LoggingConfig { with_target: enabled, ..self }),
    {
        LoggingConfig { with_target: enabled, ..self }
    }
}

impl LoggingConfig {
    /// The filter used when the environment sets none: this crate's events at the configured
    /// level, `mefirst=LEVEL`.
    pub fn default_filter(&self) -> (r: String)
        ensures
            r@ == "mefirst="@ + match self.level {
                LogLevel::Trace => "TRACE"@,
                LogLevel::Debug => "DEBUG"@,
                LogLevel::Info => "INFO"@,
                LogLevel::Warn => "WARN"@,
                LogLevel::Error => "ERROR"@,
            },
    {
        let mut r = String::from_str("mefirst=");
        r.append(self.level.as_str());
        r
    }

    /// The output format in effect: the one the environment names (`LOG_FORMAT`), when it
    /// names one, otherwise the configured one.
    pub fn effective_format(&self, from_env: Option<&str>) -> (r: LogFormat)
        ensures
            r == match from_env {
                Some(s) => match log_format_from_lowercase(s@, lowercase(s@)) {
                    Ok(f) => f,
                    Err(_) => self.format,
                },
                None => self.format,
            },
    {
        match from_env {
            Some(s) => match LogFormat::parse_name(s) {
                Ok(f) => f,
                Err(_) => self.format,
            },
            None => self.format,
        }
    }
}

} // verus!
