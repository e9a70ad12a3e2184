//! Plugin that filters requests by process metadata and HTTP headers before a delegate answers.
use vstd::prelude::*;
use vstd::string::*;
use crate::config::{PatternConfig, PluginConfig};
use crate::error::InterposerError;
use crate::plugin::matcher::{matcher_from, PatternMatcher};
use crate::plugin::{InterceptionPlugin, Plugin};
use crate::headers::{header_lookup, lemma_header_lookup_suffix};
use crate::process::ProcessInfo;
use crate::headers::header_views;

verus! {

/// Plugin that filters requests based on process metadata and HTTP headers.
///
/// All configured filters use AND logic - all must match for the plugin to match.
#[derive(Debug)]
pub struct ProcessAwarePlugin {
    pub path_matcher: PatternMatcher,
    pub uid_filter: Option<u32>,
    pub username_filter: Option<String>,
    pub executable_matcher: Option<PatternMatcher>,
    pub cmdline_matcher: Option<PatternMatcher>,
    pub host_matcher: Option<PatternMatcher>,
    pub delegate: Box<Plugin>,
    pub pattern: String,
}

/// The optional matcher a configuration gives, or the error text (with `what` in front).
pub open spec fn optional_matcher_from(pc: Option<PatternConfig>) -> std::result::Result<Option<PatternMatcher>, Seq<char>> {
    match pc {
        None => Ok(None),
        Some(p) => match matcher_from(p.pattern, p.pattern_type) {
            Ok(m) => Ok(Some(m)),
            Err(e) => Err(e),
        },
    }
}

/// Whether `p` is the process-aware plugin configuration `c` describes (its delegate aside).
pub open spec fn process_aware_of(p: ProcessAwarePlugin, c: PluginConfig) -> bool {
    &&& matcher_from(c.pattern, c.pattern_type) == Ok::<PatternMatcher, Seq<char>>(p.path_matcher)
    &&& p.uid_filter == c.uid
    &&& p.username_filter == c.username
    &&& optional_matcher_from(c.executable_pattern) == Ok::<Option<PatternMatcher>, Seq<char>>(p.executable_matcher)
    &&& optional_matcher_from(c.cmdline_pattern) == Ok::<Option<PatternMatcher>, Seq<char>>(p.cmdline_matcher)
    &&& optional_matcher_from(c.host_pattern) == Ok::<Option<PatternMatcher>, Seq<char>>(p.host_matcher)
    &&& p.pattern == c.pattern
}

/// Why configuration `c` gives no process-aware plugin, if it does not.
pub open spec fn process_aware_error(c: PluginConfig) -> Option<Seq<char>> {
    match matcher_from(c.pattern, c.pattern_type) {
        Err(m) => Some(m),
        Ok(_) => match optional_matcher_from(c.executable_pattern) {
            Err(m) => Some("Invalid executable pattern: "@ + m),
            Ok(_) => match optional_matcher_from(c.cmdline_pattern) {
                Err(m) => Some("Invalid cmdline pattern: "@ + m),
                Ok(_) => match optional_matcher_from(c.host_pattern) {
                    Err(m) => Some("Invalid host pattern: "@ + m),
                    Ok(_) => None,
                },
            },
        },
    }
}

/// The value of the header named `name` (the last one, when there are several).
pub fn find_header<'a>(headers: &'a Vec<(String, String)>, name: &str) -> (r: Option<&'a String>)
    ensures
        match (r, header_lookup(header_views(headers@), name@)) {
            (Some(a), Some(b)) => a@ == b,
            (None, None) => true,
            _ => false,
        },
{
    let mut i: usize = headers.len();
    let key = name.to_owned();
    while i > 0
        invariant
            i <= headers@.len(),
            key@ == name@,
            forall|j: int| i <= j < headers@.len() ==> (#[trigger] headers@[j]).0@ != name@,
        decreases i,
    {
        let entry = &headers[i - 1];
        if entry.0 == key {
            proof {
                lemma_header_lookup_suffix(header_views(headers@), name@, i as int);
                let t = header_views(headers@).take(i as int);
                assert(t.last() == header_views(headers@)[i - 1]);
            }
            return Some(&entry.1);
        }
        i = i - 1;
    }
    proof {
        lemma_header_lookup_suffix(header_views(headers@), name@, 0);
    }
    None
}

fn optional_matcher(pc: &Option<PatternConfig>) -> (r: std::result::Result<Option<PatternMatcher>, String>)
    ensures
        match (r, optional_matcher_from(*pc)) {
            (Ok(a), Ok(b)) => a == b,
            (Err(a), Err(b)) => a@ == b,
            _ => false,
        },
{
    match pc {
        None => Ok(None),
        Some(p) => match PatternMatcher::from_config(p) {
            Ok(m) => Ok(Some(m)),
            Err(e) => Err(e),
        },
    }
}

fn prefixed_error(prefix: &str, e: String) -> (r: InterposerError)
    ensures
        r matches InterposerError::PluginConfig(m) && m@ == prefix@ + e@,
{
    let mut m = String::from_str(prefix);
    m.append(e.as_str());
    InterposerError::PluginConfig(m)
}

impl ProcessAwarePlugin {
    /// Whether any process filter (uid, username, executable, cmdline) is configured.
    pub open spec fn has_process_filters(self) -> bool {
        self.uid_filter is Some || self.username_filter is Some || self.executable_matcher is Some
            || self.cmdline_matcher is Some
    }

    /// Whether the process metadata passes every configured process filter.
    pub open spec fn process_filters_pass(self, info: ProcessInfo) -> bool {
        &&& self.uid_filter matches Some(u) ==> info.uid == u
        &&& self.username_filter matches Some(n) ==> info.username@ == n@
        &&& self.executable_matcher matches Some(m) ==> m.spec_matches(info.executable@)
        &&& self.cmdline_matcher matches Some(m) ==> m.spec_matches(info.cmdline@)
    }

    /// Whether the headers pass the host filter: when one is configured, a `host` header must
    /// be present and match it.
    pub open spec fn header_filters_pass(self, headers: Seq<(Seq<char>, Seq<char>)>) -> bool {
        self.host_matcher matches Some(m) ==> (header_lookup(headers, "host"@) matches Some(h)
            && m.spec_matches(h))
    }

    /// Create a new ProcessAwarePlugin from configuration, answering through `delegate`.
    pub fn new(config: &PluginConfig, delegate: Plugin) -> (r: std::result::Result<Self, InterposerError>)
        ensures
            r is Ok <==> process_aware_error(*config) is None,
            r matches Ok(p) ==> process_aware_of(p, *config) && *p.delegate == delegate,
            r matches Err(e) ==> e matches InterposerError::PluginConfig(m) && Some(m@) == process_aware_error(*config),
    {
        let path_matcher = match PatternMatcher::new(config.pattern.clone(), config.pattern_type) {
            Ok(m) => m,
            Err(e) => {
                return Err(InterposerError::PluginConfig(e));
            },
        };
        let executable_matcher = match optional_matcher(&config.executable_pattern) {
            Ok(m) => m,
            Err(e) => {
                return Err(prefixed_error("Invalid executable pattern: ", e));
            },
        };
        let cmdline_matcher = match optional_matcher(&config.cmdline_pattern) {
            Ok(m) => m,
            Err(e) => {
                return Err(prefixed_error("Invalid cmdline pattern: ", e));
            },
        };
        let host_matcher = match optional_matcher(&config.host_pattern) {
            Ok(m) => m,
            Err(e) => {
                return Err(prefixed_error("Invalid host pattern: ", e));
            },
        };
        let username_filter = match &config.username {
            Some(u) => Some(u.clone()),
            None => None,
        };
        Ok(
            ProcessAwarePlugin {
                path_matcher,
                uid_filter: config.uid,
                username_filter,
                executable_matcher,
                cmdline_matcher,
                host_matcher,
                delegate: Box::new(delegate),
                pattern: config.pattern.clone(),
            },
        )
    }

    /// Check if process metadata matches all configured process filters
    pub fn matches_process_filters(&self, process_info: &ProcessInfo) -> (r: bool)
        ensures
            r == self.process_filters_pass(*process_info),
    {
        match self.uid_filter {
            Some(required_uid) => {
                if process_info.uid != required_uid {
                    return false;
                }
            },
            None => {},
        }
        match &self.username_filter {
            Some(required_username) => {
                if process_info.username != *required_username {
                    return false;
                }
            },
            None => {},
        }
        match &self.executable_matcher {
            Some(matcher) => {
                if !matcher.matches(process_info.executable.as_str()) {
                    return false;
                }
            },
            None => {},
        }
        match &self.cmdline_matcher {
            Some(matcher) => {
                if !matcher.matches(process_info.cmdline.as_str()) {
                    return false;
                }
            },
            None => {},
        }
        true
    }

    /// Check if HTTP headers match all configured header filters
    pub fn matches_header_filters(&self, headers: &Vec<(String, String)>) -> (r: bool)
        ensures
            r == self.header_filters_pass(header_views(headers@)),
    {
        match &self.host_matcher {
            Some(matcher) => {
                match find_header(headers, "host") {
                    Some(host) => matcher.matches(host.as_str()),
                    None => false,
                }
            },
            None => true,
        }
    }
}

impl InterceptionPlugin for ProcessAwarePlugin {
    open spec fn spec_matches(&self, path: Seq<char>) -> bool {
        self.path_matcher.spec_matches(path)
    }

    open spec fn spec_matches_process_aware(&self, process_info: Option<ProcessInfo>, headers: Seq<(Seq<char>, Seq<char>)>) -> bool {
        &&& self.has_process_filters() ==> (process_info matches Some(i) && self.process_filters_pass(i))
        &&& self.header_filters_pass(headers)
    }

    open spec fn spec_pattern(&self) -> Seq<char> {
        self.pattern@
    }

    fn matches(&self, path: &str) -> (r: bool) {
        self.path_matcher.matches(path)
    }

    fn matches_process_aware(&self, process_info: Option<&ProcessInfo>, headers: &Vec<(String, String)>) -> (r: bool) {
        let has_process_filters = self.uid_filter.is_some() || self.username_filter.is_some()
            || self.executable_matcher.is_some() || self.cmdline_matcher.is_some();
        if has_process_filters {
            match process_info {
                Some(info) => {
                    if !self.matches_process_filters(info) {
                        return false;
                    }
                },
                None => {
                    return false;
                },
            }
        }
        self.matches_header_filters(headers)
    }

    fn pattern(&self) -> (r: &str) {
        self.pattern.as_str()
    }
}


/// A plugin without process filters does not look at the client's process: it decides the
/// same whether the metadata is known or not, so it keeps working when none can be retrieved.
pub proof fn lemma_no_process_filters_ignore_metadata(
    p: ProcessAwarePlugin,
    a: Option<ProcessInfo>,
    b: Option<ProcessInfo>,
    headers: Seq<(Seq<char>, Seq<char>)>,
)
    requires
        !p.has_process_filters(),
    ensures
        p.spec_matches_process_aware(a, headers) == p.spec_matches_process_aware(b, headers),
{
}

/// A plugin with a process filter never accepts a request whose client process is unknown.
pub proof fn lemma_process_filters_need_metadata(p: ProcessAwarePlugin, headers: Seq<(Seq<char>, Seq<char>)>)
    requires
        p.has_process_filters(),
    ensures
        !p.spec_matches_process_aware(None, headers),
{
}

/// A plugin with a host filter never accepts a request without a `host` header.
pub proof fn lemma_host_filter_needs_host(
    p: ProcessAwarePlugin,
    info: Option<ProcessInfo>,
    headers: Seq<(Seq<char>, Seq<char>)>,
)
    requires
        p.host_matcher is Some,
        header_lookup(headers, "host"@) is None,
    ensures
        !p.spec_matches_process_aware(info, headers),
{
}

/// The filters combine: a request passes only if it passes the process filters (when there
/// are any) and the header filters.
pub proof fn lemma_filters_combine(
    p: ProcessAwarePlugin,
    info: ProcessInfo,
    headers: Seq<(Seq<char>, Seq<char>)>,
)
    ensures
        p.spec_matches_process_aware(Some(info), headers) == ((p.has_process_filters()
            ==> p.process_filters_pass(info)) && p.header_filters_pass(headers)),
{
}


/// Every configured filter must be passed: a client whose uid or username differs from the
/// configured one, or whose executable or command line does not match the configured pattern,
/// is refused; one that passes every configured filter, with a matching `host` header where a
/// host filter is configured, is accepted.
pub proof fn lemma_each_filter_required(
    p: ProcessAwarePlugin,
    info: ProcessInfo,
    headers: Seq<(Seq<char>, Seq<char>)>,
)
    ensures
        p.uid_filter matches Some(u) && info.uid != u ==> !p.spec_matches_process_aware(Some(info), headers),
        p.username_filter matches Some(n) && info.username@ != n@ ==> !p.spec_matches_process_aware(
            Some(info),
            headers,
        ),
        p.executable_matcher matches Some(m) && !m.spec_matches(info.executable@)
            ==> !p.spec_matches_process_aware(Some(info), headers),
        p.cmdline_matcher matches Some(m) && !m.spec_matches(info.cmdline@)
            ==> !p.spec_matches_process_aware(Some(info), headers),
        p.host_matcher matches Some(m) && header_lookup(headers, "host"@) matches Some(h) && !m.spec_matches(h)
            ==> !p.spec_matches_process_aware(Some(info), headers),
        ({
            &&& p.uid_filter matches Some(u) ==> info.uid == u
            &&& p.username_filter matches Some(n) ==> info.username@ == n@
            &&& p.executable_matcher matches Some(m) ==> m.spec_matches(info.executable@)
            &&& p.cmdline_matcher matches Some(m) ==> m.spec_matches(info.cmdline@)
            &&& p.host_matcher matches Some(m) ==> (header_lookup(headers, "host"@) matches Some(h)
                && m.spec_matches(h))
        }) ==> p.spec_matches_process_aware(Some(info), headers),
{
}

} // verus!
