//! Interception plugins: matching requests and choosing who answers them.
use vstd::prelude::*;
use crate::process::ProcessInfo;
use crate::headers::header_views;
pub use crate::headers::header_lookup;
use crate::plugin::command::CommandPlugin;
use crate::plugin::file::FilePlugin;
use crate::plugin::process_aware::ProcessAwarePlugin;

pub use factory::PluginFactory;

pub mod command;
pub mod config;
pub mod factory;
pub mod file;
pub mod matcher;
pub mod process_aware;

verus! {

pub open spec fn opt_info(p: Option<&ProcessInfo>) -> Option<ProcessInfo> {
    match p {
        Some(i) => Some(*i),
        None => None,
    }
}

/// Request context for plugins that need to access the incoming HTTP request
#[derive(Debug, Clone)]
pub struct RequestContext {
    pub method: String,
    pub path: String,
    pub headers: Vec<(String, String)>,
    pub body: Vec<u8>,
    pub process_info: Option<ProcessInfo>,
}

/// Response from an interception plugin
#[derive(Debug, Clone)]
pub struct PluginResponse {
    pub status_code: u16,
    pub headers: Vec<(String, String)>,
    pub body: Vec<u8>,
}

/// An interception plugin: decides whether it answers a request.
pub trait InterceptionPlugin {
    /// Whether the plugin's path pattern accepts `path`.
    spec fn spec_matches(&self, path: Seq<char>) -> bool;

    /// Whether the process metadata and headers pass the plugin's filters.
    spec fn spec_matches_process_aware(
        &self,
        process_info: Option<ProcessInfo>,
        headers: Seq<(Seq<char>, Seq<char>)>,
    ) -> bool;

    /// The plugin's configured pattern.
    spec fn spec_pattern(&self) -> Seq<char>;

    /// Check if this plugin matches the given path
    fn matches(&self, path: &str) -> (r: bool)
        ensures
            r == self.spec_matches(path@),
    ;

    /// Check if this plugin matches based on process metadata and HTTP headers
    fn matches_process_aware(&self, process_info: Option<&ProcessInfo>, headers: &Vec<(String, String)>) -> (r: bool)
        ensures
            r == self.spec_matches_process_aware(opt_info(process_info), header_views(headers@)),
    ;

    /// Get the plugin's pattern for debugging/logging
    fn pattern(&self) -> (r: &str)
        ensures
            r@ == self.spec_pattern(),
    ;
}

/// A configured plugin: one that answers from a file or a command, or one that filters by
/// process metadata and headers before another answers.
#[derive(Debug)]
pub enum Plugin {
    File(FilePlugin),
    Command(CommandPlugin),
    ProcessAware(ProcessAwarePlugin),
}

impl InterceptionPlugin for Plugin {
    open spec fn spec_matches(&self, path: Seq<char>) -> bool {
        match self {
            Plugin::File(p) => p.spec_matches(path),
            Plugin::Command(p) => p.spec_matches(path),
            Plugin::ProcessAware(p) => p.spec_matches(path),
        }
    }

    open spec fn spec_matches_process_aware(&self, process_info: Option<ProcessInfo>, headers: Seq<(Seq<char>, Seq<char>)>) -> bool {
        match self {
            Plugin::File(p) => p.spec_matches_process_aware(process_info, headers),
            Plugin::Command(p) => p.spec_matches_process_aware(process_info, headers),
            Plugin::ProcessAware(p) => p.spec_matches_process_aware(process_info, headers),
        }
    }

    open spec fn spec_pattern(&self) -> Seq<char> {
        match self {
            Plugin::File(p) => p.spec_pattern(),
            Plugin::Command(p) => p.spec_pattern(),
            Plugin::ProcessAware(p) => p.spec_pattern(),
        }
    }

    fn matches(&self, path: &str) -> (r: bool) {
        match self {
            Plugin::File(p) => p.matches(path),
            Plugin::Command(p) => p.matches(path),
            Plugin::ProcessAware(p) => p.matches(path),
        }
    }

    fn matches_process_aware(&self, process_info: Option<&ProcessInfo>, headers: &Vec<(String, String)>) -> (r: bool) {
        match self {
            Plugin::File(p) => p.matches_process_aware(process_info, headers),
            Plugin::Command(p) => p.matches_process_aware(process_info, headers),
            Plugin::ProcessAware(p) => p.matches_process_aware(process_info, headers),
        }
    }

    fn pattern(&self) -> (r: &str) {
        match self {
            Plugin::File(p) => p.pattern(),
            Plugin::Command(p) => p.pattern(),
            Plugin::ProcessAware(p) => p.pattern(),
        }
    }
}

/// The plugin whose response source answers for `p`: `p` itself, or for a process-aware
/// plugin the one it wraps.
pub open spec fn responder_of(p: Plugin) -> Plugin
    decreases p,
{
    match p {
        Plugin::ProcessAware(pa) => responder_of(*pa.delegate),
        _ => p,
    }
}

impl Plugin {
    /// The plugin whose response source answers: this one, or for a process-aware plugin the
    /// one it wraps (a file or a command plugin).
    pub fn responder(&self) -> (r: &Plugin)
        ensures
            *r == responder_of(*self),
            !(r is ProcessAware),
        decreases self,
    {
        match self {
            Plugin::ProcessAware(pa) => pa.delegate.responder(),
            _ => self,
        }
    }
}

/// Registry for managing multiple interception plugins, tried in registration order.
pub struct PluginRegistry<P> {
    plugins: Vec<P>,
}

impl<P: InterceptionPlugin> PluginRegistry<P> {
    /// The registered plugins, in registration order.
    pub closed spec fn spec_plugins(&self) -> Seq<P> {
        self.plugins@
    }

    /// Whether plugin `i` accepts the request.
    pub open spec fn accepts(
        &self,
        i: int,
        path: Seq<char>,
        info: Option<ProcessInfo>,
        headers: Seq<(Seq<char>, Seq<char>)>,
    ) -> bool {
        self.spec_plugins()[i].spec_matches(path) && self.spec_plugins()[i].spec_matches_process_aware(info, headers)
    }

    /// Create a new empty plugin registry
    pub fn new() -> (r: Self)
        ensures
            r.spec_plugins() == Seq::<P>::empty(),
    {
        PluginRegistry { plugins: Vec::new() }
    }

    /// Register a plugin after the ones already registered.
    pub fn register(&mut self, plugin: P)
        ensures
            final(self).spec_plugins() == old(self).spec_plugins().push(plugin),
    {
        self.plugins.push(plugin);
    }

    /// The first registered plugin that matches the path, the process metadata and the headers.
    pub fn find_match(&self, path: &str, process_info: Option<&ProcessInfo>, headers: &Vec<(String, String)>) -> (r: Option<&P>)
        ensures
            r is None <==> (forall|i: int| 0 <= i < self.spec_plugins().len()
                ==> !#[trigger] self.accepts(i, path@, opt_info(process_info), header_views(headers@))),
            r matches Some(p) ==> exists|i: int| 0 <= i < self.spec_plugins().len()
                && #[trigger] self.accepts(i, path@, opt_info(process_info), header_views(headers@))
                && self.spec_plugins()[i] == *p
                && forall|j: int| 0 <= j < i ==> !#[trigger] self.accepts(j, path@, opt_info(process_info), header_views(headers@)),
    {
        let mut i: usize = 0;
        while i < self.plugins.len()
            invariant
                i <= self.plugins@.len(),
                forall|j: int| 0 <= j < i ==> !#[trigger] self.accepts(j, path@, opt_info(process_info), header_views(headers@)),
            decreases self.plugins@.len() - i,
        {
            let p = &self.plugins[i];
            if p.matches(path) && p.matches_process_aware(process_info, headers) {
                assert(self.accepts(i as int, path@, opt_info(process_info), header_views(headers@)));
                return Some(p);
            }
            i = i + 1;
        }
        None
    }

    /// Get the number of registered plugins
    pub fn len(&self) -> (r: usize)
        ensures
            r == self.spec_plugins().len(),
    {
        self.plugins.len()
    }

    /// Check if the registry is empty
    pub fn is_empty(&self) -> (r: bool)
        ensures
            r == (self.spec_plugins().len() == 0),
    {
        self.plugins.len() == 0
    }
}


/// Registering a plugin leaves how the registered ones judge every request as it was, and
/// the new one comes last: it answers exactly the requests it accepts that none before it does.
pub proof fn lemma_register_appends<P: InterceptionPlugin>(
    before: PluginRegistry<P>,
    after: PluginRegistry<P>,
    plugin: P,
    path: Seq<char>,
    info: Option<ProcessInfo>,
    headers: Seq<(Seq<char>, Seq<char>)>,
)
    requires
        after.spec_plugins() == before.spec_plugins().push(plugin),
    ensures
        after.spec_plugins().len() == before.spec_plugins().len() + 1,
        forall|i: int| 0 <= i < before.spec_plugins().len() ==> #[trigger] after.accepts(i, path, info, headers)
            == before.accepts(i, path, info, headers),
        after.accepts(before.spec_plugins().len() as int, path, info, headers) == (plugin.spec_matches(path)
            && plugin.spec_matches_process_aware(info, headers)),
{
    assert forall|i: int| 0 <= i < before.spec_plugins().len() implies #[trigger] after.accepts(i, path, info, headers)
        == before.accepts(i, path, info, headers) by {
        assert(after.spec_plugins()[i] == before.spec_plugins()[i]);
    }
}

} // verus!
