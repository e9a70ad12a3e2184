//! Validation of a single plugin's configuration.
use vstd::prelude::*;
use vstd::string::*;
use crate::config::{PatternType, PluginConfig, ResponseSource};
use crate::error::InterposerError;
use crate::paths::{debug_quoted, debug_text, path_exists, path_is_file};
use crate::plugin::matcher::{regex_check, regex_compile_error};
use crate::text::{dec, decimal_string};

verus! {

/// The checks that do not involve the response source: status code, timeout and the
/// compatibility of `proxy_request_stdin` with the response source.
pub open spec fn plugin_settings_error(c: PluginConfig) -> Option<Seq<char>> {
    if c.status_code < 100 || c.status_code > 599 {
        Some("Invalid HTTP status code: "@ + dec(c.status_code as nat))
    } else if c.timeout_secs == Some(0u64) {
        Some("Timeout must be greater than 0"@)
    } else if c.proxy_request_stdin == Some(true) && c.response_source is File {
        Some("proxy_request_stdin can only be used with command-based response sources"@)
    } else {
        None
    }
}

/// Why a plugin configuration is invalid, if it is, given whether its response file exists and
/// is a regular file (`path_exists`, `path_is_file`; not consulted for a command source).
pub open spec fn plugin_validation(c: PluginConfig, path_exists: bool, path_is_file: bool) -> Option<Seq<char>> {
    if c.pattern@.len() == 0 {
        Some("Plugin pattern cannot be empty"@)
    } else if c.pattern_type == PatternType::Regex && regex_compile_error(c.pattern@) is Some {
        Some("Invalid regex pattern: "@ + regex_compile_error(c.pattern@)->0)
    } else {
        match c.response_source {
            ResponseSource::File { path } => if !path_exists {
                Some("Response file does not exist: "@ + debug_text(path@))
            } else if !path_is_file {
                Some("Response path is not a file: "@ + debug_text(path@))
            } else {
                plugin_settings_error(c)
            },
            ResponseSource::Command { command, .. } => if command@.len() == 0 {
                Some("Command cannot be empty"@)
            } else {
                plugin_settings_error(c)
            },
        }
    }
}

/// The outcome of a plugin validation as the message of a plugin configuration error, if any.
pub open spec fn plugin_error_text(r: std::result::Result<(), InterposerError>) -> Option<Seq<char>> {
    match r {
        Ok(_) => None,
        Err(InterposerError::PluginConfig(m)) => Some(m@),
        Err(_) => Some(Seq::<char>::empty()),
    }
}

fn plugin_config_message(msg: &str) -> (r: InterposerError)
    ensures
        r matches InterposerError::PluginConfig(m) && m@ == msg@,
{
    InterposerError::PluginConfig(String::from_str(msg))
}

fn plugin_config_error(prefix: &str, tail: &str) -> (r: InterposerError)
    ensures
        r matches InterposerError::PluginConfig(m) && m@ == prefix@ + tail@,
{
    let mut m = String::from_str(prefix);
    m.append(tail);
    InterposerError::PluginConfig(m)
}

impl PluginConfig {
    fn settings_check(&self) -> (r: std::result::Result<(), InterposerError>)
        ensures
            r is Ok || r matches Err(InterposerError::PluginConfig(_)),
            plugin_error_text(r) == plugin_settings_error(*self),
    {
        if self.status_code < 100 || self.status_code > 599 {
            let n = decimal_string(self.status_code as u64);
            return Err(plugin_config_error("Invalid HTTP status code: ", n.as_str()));
        }
        match self.timeout_secs {
            Some(t) => {
                if t == 0 {
                    return Err(plugin_config_message("Timeout must be greater than 0"));
                }
            },
            None => {},
        }
        match self.proxy_request_stdin {
            Some(true) => {
                match &self.response_source {
                    ResponseSource::Command { .. } => {},
                    ResponseSource::File { .. } => {
                        return Err(
                            plugin_config_message("proxy_request_stdin can only be used with command-based response sources"),
                        );
                    },
                }
            },
            _ => {},
        }
        Ok(())
    }

    /// Validates the configuration given whether the response file exists and is a regular
    /// file (both ignored for a command source).
    pub fn validate_with(&self, path_exists: bool, path_is_file: bool) -> (r: std::result::Result<(), InterposerError>)
        ensures
            r is Ok || r matches Err(InterposerError::PluginConfig(_)),
            plugin_error_text(r) == plugin_validation(*self, path_exists, path_is_file),
    {
        if self.pattern.as_str().is_empty() {
            return Err(plugin_config_message("Plugin pattern cannot be empty"));
        }
        match self.pattern_type {
            PatternType::Regex => {
                match regex_check(self.pattern.as_str()) {
                    Some(e) => {
                        return Err(plugin_config_error("Invalid regex pattern: ", e.as_str()));
                    },
                    None => {},
                }
            },
            _ => {},
        }
        match &self.response_source {
            ResponseSource::File { path } => {
                if !path_exists {
                    let d = debug_quoted(path.as_str());
                    return Err(plugin_config_error("Response file does not exist: ", d.as_str()));
                }
                if !path_is_file {
                    let d = debug_quoted(path.as_str());
                    return Err(plugin_config_error("Response path is not a file: ", d.as_str()));
                }
            },
            ResponseSource::Command { command, .. } => {
                if command.as_str().is_empty() {
                    return Err(plugin_config_message("Command cannot be empty"));
                }
            },
        }
        self.settings_check()
    }

    /// Whether the response file exists and is a regular file, as the file system says now;
    /// `(true, true)` for a command source, which has no file.
    pub fn response_file_facts(&self) -> (r: (bool, bool))
        ensures
            self.response_source is Command ==> r == (true, true),
    {
        match &self.response_source {
            ResponseSource::File { path } => (path_exists(path.as_str()), path_is_file(path.as_str())),
            ResponseSource::Command { .. } => (true, true),
        }
    }

    /// Validate the plugin configuration, asking the file system about the response file.
    pub fn validate(&self) -> (r: std::result::Result<(), InterposerError>)
        ensures
            r is Ok || r matches Err(InterposerError::PluginConfig(_)),
            exists|e: bool, f: bool| #[trigger] plugin_validation(*self, e, f) == plugin_error_text(r),
    {
        let (e, f) = self.response_file_facts();
        let r = self.validate_with(e, f);
        assert(plugin_validation(*self, e, f) == plugin_error_text(r));
        r
    }

    /// Get the response source type as a string for logging
    pub fn response_source_type(&self) -> (r: &str)
        ensures
            r@ == match self.response_source {
                ResponseSource::File { .. } => "file"@,
                ResponseSource::Command { .. } => "command"@,
            },
    {
        match &self.response_source {
            ResponseSource::File { .. } => "file",
            ResponseSource::Command { .. } => "command",
        }
    }
}


/// The settings checks pass exactly when the status code is a valid HTTP status (100 to 599,
/// every 1xx to 5xx code), the timeout, if any, is not 0, and `proxy_request_stdin` is not
/// asked of a file source.
pub proof fn lemma_settings_accepted_exactly(c: PluginConfig)
    ensures
        plugin_settings_error(c) is None <==> (100 <= c.status_code && c.status_code <= 599
            && c.timeout_secs != Some(0u64) && !(c.proxy_request_stdin == Some(true)
            && c.response_source is File)),
{
}

/// A command configuration with a pattern that is not a regex, a non-empty pattern and
/// command, a valid HTTP status code (100 to 599) and no zero timeout is valid, whatever the
/// file system says.
pub proof fn lemma_command_config_valid(c: PluginConfig, path_exists: bool, path_is_file: bool)
    requires
        c.pattern@.len() > 0,
        !(c.pattern_type is Regex),
        c.response_source matches ResponseSource::Command { command, .. } && command@.len() > 0,
        100 <= c.status_code && c.status_code <= 599,
        c.timeout_secs != Some(0u64),
    ensures
        plugin_validation(c, path_exists, path_is_file) is None,
{
}

/// A file configuration whose response file exists and is a regular file, with a non-empty
/// pattern that is not a regex, a valid HTTP status code (100 to 599), no zero timeout and
/// `proxy_request_stdin` not asked for, is valid.
pub proof fn lemma_file_config_valid(c: PluginConfig)
    requires
        c.pattern@.len() > 0,
        !(c.pattern_type is Regex),
        c.response_source is File,
        100 <= c.status_code && c.status_code <= 599,
        c.timeout_secs != Some(0u64),
        c.proxy_request_stdin != Some(true),
    ensures
        plugin_validation(c, true, true) is None,
{
}

} // verus!
