//! Pattern matching of paths, executables, command lines and hosts.
use vstd::prelude::*;
use vstd::string::*;
use crate::config::{PatternConfig, PatternType};

verus! {

/// Whether `glob::Pattern::new` rejects the pattern, and if so the text of its error.
pub uninterp spec fn glob_compile_error(pattern: Seq<char>) -> Option<Seq<char>>;

/// Whether the glob pattern, compiled by `glob::Pattern::new`, accepts `text` under
/// `glob::Pattern::matches` (false when the pattern does not compile).
pub uninterp spec fn glob_matches(pattern: Seq<char>, text: Seq<char>) -> bool;

/// Whether `regex::Regex::new` rejects the pattern, and if so the text of its error.
pub uninterp spec fn regex_compile_error(pattern: Seq<char>) -> Option<Seq<char>>;

/// Whether the regular expression, compiled by `regex::Regex::new`, finds a match in `text`
/// under `regex::Regex::is_match` (false when the pattern does not compile).
pub uninterp spec fn regex_matches(pattern: Seq<char>, text: Seq<char>) -> bool;

/// `glob::Pattern::new`: whether the pattern compiles, and otherwise the error's text. A
/// function of the pattern alone, named `glob_compile_error`.
#[verifier::external_body]
fn glob_check(pattern: &str) -> (r: Option<String>)
    ensures
        (r is None) == (glob_compile_error(pattern@) is None),
        r matches Some(m) ==> glob_compile_error(pattern@) == Some(m@),
{
    match glob::Pattern::new(pattern) {
        Ok(_) => None,
        Err(e) => Some(format!("{}", e)),
    }
}

/// `glob::Pattern::matches` on the compiled `pattern`. A function of the pattern and the text
/// alone, named `glob_matches`.
#[verifier::external_body]
fn glob_is_match(pattern: &str, text: &str) -> (r: bool)
    ensures
        r == glob_matches(pattern@, text@),
{
    match glob::Pattern::new(pattern) {
        Ok(p) => p.matches(text),
        Err(_) => false,
    }
}

/// `regex::Regex::new`: whether the pattern compiles, and otherwise the error's text. A
/// function of the pattern alone, named `regex_compile_error`.
#[verifier::external_body]
pub(crate) fn regex_check(pattern: &str) -> (r: Option<String>)
    ensures
        (r is None) == (regex_compile_error(pattern@) is None),
        r matches Some(m) ==> regex_compile_error(pattern@) == Some(m@),
{
    match regex::Regex::new(pattern) {
        Ok(_) => None,
        Err(e) => Some(format!("{}", e)),
    }
}

/// `regex::Regex::is_match` on the compiled `pattern`. A function of the pattern and the text
/// alone, named `regex_matches`.
#[verifier::external_body]
fn regex_is_match(pattern: &str, text: &str) -> (r: bool)
    ensures
        r == regex_matches(pattern@, text@),
{
    match regex::Regex::new(pattern) {
        Ok(re) => re.is_match(text),
        Err(_) => false,
    }
}

/// Pattern matcher that supports exact, glob, and regex matching. It holds the pattern's
/// text; a glob or regex matcher is only built from a pattern that compiles.
#[derive(Debug, Clone)]
pub enum PatternMatcher {
    Exact(String),
    Glob(String),
    Regex(String),
}

/// The matcher a pattern configuration gives, or the error text.
pub open spec fn matcher_from(pattern: String, pattern_type: PatternType) -> std::result::Result<PatternMatcher, Seq<char>> {
    match pattern_type {
        PatternType::Exact => Ok(PatternMatcher::Exact(pattern)),
        PatternType::Glob => match glob_compile_error(pattern@) {
            None => Ok(PatternMatcher::Glob(pattern)),
            Some(e) => Err("Invalid glob pattern: "@ + e),
        },
        PatternType::Regex => match regex_compile_error(pattern@) {
            None => Ok(PatternMatcher::Regex(pattern)),
            Some(e) => Err("Invalid regex pattern: "@ + e),
        },
    }
}

/// Whether a result agrees with a specified outcome whose error is a text.
pub open spec fn agrees<T>(r: std::result::Result<T, String>, s: std::result::Result<T, Seq<char>>) -> bool {
    match (r, s) {
        (Ok(a), Ok(b)) => a == b,
        (Err(a), Err(b)) => a@ == b,
        _ => false,
    }
}

impl PatternMatcher {
    /// Whether `text` matches this pattern.
    pub open spec fn spec_matches(self, text: Seq<char>) -> bool {
        match self {
            PatternMatcher::Exact(p) => p@ == text,
            PatternMatcher::Glob(p) => glob_matches(p@, text),
            PatternMatcher::Regex(p) => regex_matches(p@, text),
        }
    }

    /// The pattern's text.
    pub open spec fn spec_pattern(self) -> Seq<char> {
        match self {
            PatternMatcher::Exact(p) => p@,
            PatternMatcher::Glob(p) => p@,
            PatternMatcher::Regex(p) => p@,
        }
    }

    /// Create a PatternMatcher from pattern and pattern type
    pub fn new(pattern: String, pattern_type: PatternType) -> (r: std::result::Result<Self, String>)
        ensures
            agrees(r, matcher_from(pattern, pattern_type)),
    {
        match pattern_type {
            PatternType::Exact => Ok(PatternMatcher::Exact(pattern)),
            PatternType::Glob => match glob_check(pattern.as_str()) {
                None => Ok(PatternMatcher::Glob(pattern)),
                Some(e) => {
                    let mut m = String::from_str("Invalid glob pattern: ");
                    m.append(e.as_str());
                    Err(m)
                },
            },
            PatternType::Regex => match regex_check(pattern.as_str()) {
                None => Ok(PatternMatcher::Regex(pattern)),
                Some(e) => {
                    let mut m = String::from_str("Invalid regex pattern: ");
                    m.append(e.as_str());
                    Err(m)
                },
            },
        }
    }

    /// Create a PatternMatcher from a PatternConfig
    pub fn from_config(config: &PatternConfig) -> (r: std::result::Result<Self, String>)
        ensures
            agrees(r, matcher_from(config.pattern, config.pattern_type)),
    {
        let p = config.pattern.clone();
        PatternMatcher::new(p, config.pattern_type)
    }

    /// Check if the given string matches this pattern
    pub fn matches(&self, text: &str) -> (r: bool)
        ensures
            r == self.spec_matches(text@),
    {
        match self {
            PatternMatcher::Exact(pattern) => {
                let t = text.to_owned();
                t == *pattern
            },
            PatternMatcher::Glob(pattern) => glob_is_match(pattern.as_str(), text),
            PatternMatcher::Regex(pattern) => regex_is_match(pattern.as_str(), text),
        }
    }

    /// Get the pattern string for debugging/logging
    pub fn pattern(&self) -> (r: &str)
        ensures
            r@ == self.spec_pattern(),
    {
        match self {
            PatternMatcher::Exact(s) => s.as_str(),
            PatternMatcher::Glob(s) => s.as_str(),
            PatternMatcher::Regex(s) => s.as_str(),
        }
    }

    /// Get the pattern type for debugging/logging
    pub fn pattern_type(&self) -> (r: PatternType)
        ensures
            r == match *self {
                PatternMatcher::Exact(_) => PatternType::Exact,
                PatternMatcher::Glob(_) => PatternType::Glob,
                PatternMatcher::Regex(_) => PatternType::Regex,
            },
    {
        match self {
            PatternMatcher::Exact(_) => PatternType::Exact,
            PatternMatcher::Glob(_) => PatternType::Glob,
            PatternMatcher::Regex(_) => PatternType::Regex,
        }
    }
}

} // verus!
