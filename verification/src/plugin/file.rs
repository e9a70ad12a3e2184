//! Plugin that answers with the content of a file.
use vstd::prelude::*;
use vstd::string::*;
use crate::config::{PluginConfig, ResponseSource};
use crate::error::InterposerError;
use crate::plugin::matcher::{matcher_from, PatternMatcher};
use crate::plugin::{InterceptionPlugin, PluginResponse};
use crate::process::ProcessInfo;
use crate::paths::{debug_quoted, debug_text};

verus! {

/// Plugin that returns static file content as response
#[derive(Debug, Clone)]
pub struct FilePlugin {
    pub matcher: PatternMatcher,
    pub file_path: String,
    pub status_code: u16,
    pub pattern: String,
}

/// Whether `p` is the file plugin that configuration `c` describes.
pub open spec fn file_plugin_of(p: FilePlugin, c: PluginConfig) -> bool {
    &&& c.response_source matches ResponseSource::File { path } && p.file_path == path
    &&& matcher_from(c.pattern, c.pattern_type) == Ok::<PatternMatcher, Seq<char>>(p.matcher)
    &&& p.status_code == c.status_code
    &&& p.pattern == c.pattern
}

/// Why configuration `c` gives no file plugin, if it does not.
pub open spec fn file_plugin_error(c: PluginConfig) -> Option<Seq<char>> {
    if !(c.response_source is File) {
        Some("FilePlugin requires a File response source"@)
    } else {
        match matcher_from(c.pattern, c.pattern_type) {
            Ok(_) => None,
            Err(m) => Some(m),
        }
    }
}

impl FilePlugin {
    /// Create a new file plugin from configuration
    pub fn from_config(config: &PluginConfig) -> (r: std::result::Result<Self, InterposerError>)
        ensures
            r is Ok <==> file_plugin_error(*config) is None,
            r matches Ok(p) ==> file_plugin_of(p, *config),
            r matches Err(e) ==> e matches InterposerError::PluginConfig(m) && Some(m@) == file_plugin_error(*config),
    {
        let file_path = match &config.response_source {
            ResponseSource::File { path } => path.clone(),
            _ => {
                return Err(
                    InterposerError::PluginConfig(String::from_str("FilePlugin requires a File response source")),
                );
            },
        };
        let matcher = match PatternMatcher::new(config.pattern.clone(), config.pattern_type) {
            Ok(m) => m,
            Err(e) => {
                return Err(InterposerError::PluginConfig(e));
            },
        };
        Ok(FilePlugin { matcher, file_path, status_code: config.status_code, pattern: config.pattern.clone() })
    }

    /// The error for a response file that could not be read; `detail` is the reason.
    pub fn read_failure(&self, detail: &str) -> (r: InterposerError)
        ensures
            r matches InterposerError::Plugin(m) && m@ == "Failed to read file "@ + debug_text(
                self.file_path@,
            ) + ": "@ + detail@,
    {
        let mut m = String::from_str("Failed to read file ");
        let d = debug_quoted(self.file_path.as_str());
        m.append(d.as_str());
        m.append(": ");
        m.append(detail);
        InterposerError::Plugin(m)
    }

    /// The response that serves `body`, the file's content: the configured status and no
    /// extra headers.
    pub fn response_with_body(&self, body: Vec<u8>) -> (r: PluginResponse)
        ensures
            r.status_code == self.status_code,
            r.headers@.len() == 0,
            r.body@ == body@,
    {
        PluginResponse { status_code: self.status_code, headers: Vec::new(), body }
    }
}

impl InterceptionPlugin for FilePlugin {
    open spec fn spec_matches(&self, path: Seq<char>) -> bool {
        self.matcher.spec_matches(path)
    }

    open spec fn spec_matches_process_aware(&self, process_info: Option<ProcessInfo>, headers: Seq<(Seq<char>, Seq<char>)>) -> bool {
        true
    }

    open spec fn spec_pattern(&self) -> Seq<char> {
        self.pattern@
    }

    fn matches(&self, path: &str) -> (r: bool) {
        self.matcher.matches(path)
    }

    fn matches_process_aware(&self, process_info: Option<&ProcessInfo>, headers: &Vec<(String, String)>) -> (r: bool) {
        // FilePlugin doesn't filter by process or headers
        true
    }

    fn pattern(&self) -> (r: &str) {
        self.pattern.as_str()
    }
}

} // verus!
