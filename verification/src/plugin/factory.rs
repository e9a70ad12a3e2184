//! Building plugins and registries from configuration.
use vstd::prelude::*;
use vstd::string::*;
use crate::config::{PluginConfig, ResponseSource};
use crate::error::InterposerError;
use crate::plugin::command::{command_plugin_error, command_plugin_of, CommandPlugin};
use crate::plugin::config::plugin_validation;
use crate::plugin::file::{file_plugin_error, file_plugin_of, FilePlugin};
use crate::plugin::process_aware::{process_aware_error, process_aware_of, ProcessAwarePlugin};
use crate::plugin::{responder_of, InterceptionPlugin, Plugin, PluginRegistry};
use crate::process::ProcessInfo;
use crate::text::{dec, decimal_string};

verus! {

/// Whether the configuration has any filter that needs a process-aware plugin.
pub open spec fn has_process_filters_config(c: PluginConfig) -> bool {
    c.uid is Some || c.username is Some || c.executable_pattern is Some || c.cmdline_pattern is Some
        || c.host_pattern is Some
}

/// Whether `p` is the plugin that answers for configuration `c` (file or command).
pub open spec fn base_plugin_of(p: Plugin, c: PluginConfig) -> bool {
    match c.response_source {
        ResponseSource::File { .. } => p matches Plugin::File(f) && file_plugin_of(f, c),
        ResponseSource::Command { .. } => p matches Plugin::Command(cp) && command_plugin_of(cp, c),
    }
}

/// Whether `p` is the plugin configuration `c` describes: the answering plugin, wrapped in a
/// process-aware one when any process or host filter is configured.
pub open spec fn plugin_of(p: Plugin, c: PluginConfig) -> bool {
    if has_process_filters_config(c) {
        p matches Plugin::ProcessAware(pa) && process_aware_of(pa, c) && base_plugin_of(*pa.delegate, c)
    } else {
        base_plugin_of(p, c)
    }
}

/// Why a validated configuration gives no plugin, if it does not.
pub open spec fn plugin_build_error(c: PluginConfig) -> Option<Seq<char>> {
    let base = match c.response_source {
        ResponseSource::File { .. } => file_plugin_error(c),
        ResponseSource::Command { .. } => command_plugin_error(c),
    };
    if base is Some {
        base
    } else if has_process_filters_config(c) {
        process_aware_error(c)
    } else {
        None
    }
}

/// Why configuration `c` gives no plugin, if it does not, given the facts about its response
/// file (`path_exists`, `path_is_file`).
pub open spec fn plugin_creation_error(c: PluginConfig, path_exists: bool, path_is_file: bool) -> Option<Seq<char>> {
    match plugin_validation(c, path_exists, path_is_file) {
        Some(m) => Some(m),
        None => plugin_build_error(c),
    }
}

/// The message of the first configuration, from `k` on, that gives no plugin.
pub open spec fn registry_error_from(configs: Seq<PluginConfig>, facts: Seq<(bool, bool)>, k: int) -> Option<Seq<char>>
    decreases configs.len() - k,
{
    if k < 0 || k >= configs.len() {
        None
    } else {
        match plugin_creation_error(configs[k], facts[k].0, facts[k].1) {
            Some(m) => Some("Failed to create plugin "@ + dec(k as nat) + ": "@ + ("Plugin configuration error: "@ + m)),
            None => registry_error_from(configs, facts, k + 1),
        }
    }
}

/// The message of the first configuration that gives no plugin, if any.
pub open spec fn registry_error(configs: Seq<PluginConfig>, facts: Seq<(bool, bool)>) -> Option<Seq<char>> {
    registry_error_from(configs, facts, 0)
}

/// Factory for creating plugins from configuration
pub struct PluginFactory;

impl PluginFactory {
    /// Creates the plugin configuration `config` describes, given whether its response file
    /// exists and is a regular file.
    pub fn create_plugin_with(config: &PluginConfig, path_exists: bool, path_is_file: bool) -> (r: std::result::Result<Plugin, InterposerError>)
        ensures
            r is Ok <==> plugin_creation_error(*config, path_exists, path_is_file) is None,
            r matches Ok(p) ==> plugin_of(p, *config),
            r matches Err(e) ==> e matches InterposerError::PluginConfig(m) && Some(m@)
                == plugin_creation_error(*config, path_exists, path_is_file),
    {
        match config.validate_with(path_exists, path_is_file) {
            Ok(()) => {},
            Err(e) => {
                return Err(e);
            },
        }
        let base_plugin = match &config.response_source {
            ResponseSource::File { .. } => match FilePlugin::from_config(config) {
                Ok(p) => Plugin::File(p),
                Err(e) => {
                    return Err(e);
                },
            },
            ResponseSource::Command { .. } => match CommandPlugin::from_config(config) {
                Ok(p) => Plugin::Command(p),
                Err(e) => {
                    return Err(e);
                },
            },
        };
        let has_process_filters = config.uid.is_some() || config.username.is_some()
            || config.executable_pattern.is_some() || config.cmdline_pattern.is_some()
            || config.host_pattern.is_some();
        if has_process_filters {
            match ProcessAwarePlugin::new(config, base_plugin) {
                Ok(p) => Ok(Plugin::ProcessAware(p)),
                Err(e) => Err(e),
            }
        } else {
            Ok(base_plugin)
        }
    }

    /// Create a plugin from configuration, asking the file system about its response file.
    pub fn create_plugin(config: &PluginConfig) -> (r: std::result::Result<Plugin, InterposerError>)
        ensures
            exists|e: bool, f: bool|
                {
                    &&& r is Ok <==> #[trigger] plugin_creation_error(*config, e, f) is None
                    &&& r matches Err(err) ==> err matches InterposerError::PluginConfig(m) && Some(m@)
                        == plugin_creation_error(*config, e, f)
                },
            r matches Ok(p) ==> plugin_of(p, *config),
    {
        let (e, f) = config.response_file_facts();
        let r = PluginFactory::create_plugin_with(config, e, f);
        assert(r is Ok <==> plugin_creation_error(*config, e, f) is None);
        r
    }

    /// Creates the registry of the plugins `configs` describe, in that order, given the facts
    /// about each response file (`facts[i]` for `configs[i]`); the first configuration that gives
    /// no plugin makes the whole registry fail.
    pub fn create_registry_with(configs: &[PluginConfig], facts: &Vec<(bool, bool)>) -> (r: std::result::Result<PluginRegistry<Plugin>, InterposerError>)
        requires
            facts@.len() == configs@.len(),
        ensures
            r is Ok <==> registry_error(configs@, facts@) is None,
            r matches Ok(reg) ==> reg.spec_plugins().len() == configs@.len() && forall|i: int|
                0 <= i < configs@.len() ==> plugin_of(#[trigger] reg.spec_plugins()[i], configs@[i]),
            r matches Err(e) ==> e matches InterposerError::PluginConfig(m) && Some(m@) == registry_error(configs@, facts@),
    {
        let mut registry: PluginRegistry<Plugin> = PluginRegistry::new();
        let n = configs.len();
        let mut idx: usize = 0;
        while idx < n
            invariant
                idx <= n,
                n == configs@.len(),
                facts@.len() == n,
                registry_error(configs@, facts@) == registry_error_from(configs@, facts@, idx as int),
                registry.spec_plugins().len() == idx,
                forall|i: int| 0 <= i < idx ==> plugin_of(#[trigger] registry.spec_plugins()[i], configs@[i]),
            decreases n - idx,
        {
            let (e, f) = facts[idx];
            match PluginFactory::create_plugin_with(&configs[idx], e, f) {
                Ok(plugin) => {
                    registry.register(plugin);
                },
                Err(err) => {
                    let mut m = String::from_str("Failed to create plugin ");
                    let n_text = decimal_string(idx as u64);
                    m.append(n_text.as_str());
                    m.append(": ");
                    let inner = err.message();
                    m.append(inner.as_str());
                    return Err(InterposerError::PluginConfig(m));
                },
            }
            idx = idx + 1;
        }
        Ok(registry)
    }

    /// Create a plugin registry from a list of plugin configurations, asking the file system
    /// about each response file.
    pub fn create_registry(configs: &[PluginConfig]) -> (r: std::result::Result<PluginRegistry<Plugin>, InterposerError>)
        ensures
            exists|facts: Seq<(bool, bool)>|
                {
                    &&& facts.len() == configs@.len()
                    &&& r is Ok <==> #[trigger] registry_error(configs@, facts) is None
                    &&& r matches Err(e) ==> e matches InterposerError::PluginConfig(m) && Some(m@)
                        == registry_error(configs@, facts)
                },
            r matches Ok(reg) ==> reg.spec_plugins().len() == configs@.len() && forall|i: int|
                0 <= i < configs@.len() ==> plugin_of(#[trigger] reg.spec_plugins()[i], configs@[i]),
    {
        let n = configs.len();
        let mut facts: Vec<(bool, bool)> = Vec::new();
        let mut i: usize = 0;
        while i < n
            invariant
                i <= n,
                n == configs@.len(),
                facts@.len() == i,
            decreases n - i,
        {
            facts.push(configs[i].response_file_facts());
            i = i + 1;
        }
        let r = PluginFactory::create_registry_with(configs, &facts);
        assert(r is Ok <==> registry_error(configs@, facts@) is None);
        r
    }
}


/// A command configuration with an exact pattern, a non-empty pattern and command, a valid HTTP
/// status code (100 to 599), no zero timeout and no process or host filter gives a plugin,
/// whatever the file system says.
pub proof fn lemma_command_config_creates_plugin(c: PluginConfig, path_exists: bool, path_is_file: bool)
    requires
        c.pattern@.len() > 0,
        c.pattern_type is Exact,
        c.response_source matches ResponseSource::Command { command, .. } && command@.len() > 0,
        100 <= c.status_code && c.status_code <= 599,
        c.timeout_secs != Some(0u64),
        !has_process_filters_config(c),
    ensures
        plugin_creation_error(c, path_exists, path_is_file) is None,
{
    crate::plugin::config::lemma_command_config_valid(c, path_exists, path_is_file);
}


proof fn lemma_registry_skips_good(configs: Seq<PluginConfig>, facts: Seq<(bool, bool)>, k: int, m: int)
    requires
        0 <= k <= m <= configs.len(),
        facts.len() == configs.len(),
        forall|j: int| k <= j < m ==> #[trigger] plugin_creation_error(configs[j], facts[j].0, facts[j].1) is None,
    ensures
        registry_error_from(configs, facts, k) == registry_error_from(configs, facts, m),
    decreases m - k,
{
    if k < m {
        assert(plugin_creation_error(configs[k], facts[k].0, facts[k].1) is None);
        lemma_registry_skips_good(configs, facts, k + 1, m);
    }
}

/// A registry is built exactly when every configuration gives a plugin; otherwise the first
/// configuration that gives none, at whatever position, is reported with its index.
pub proof fn lemma_registry_reports_first_failure(configs: Seq<PluginConfig>, facts: Seq<(bool, bool)>, i: int)
    requires
        facts.len() == configs.len(),
        0 <= i <= configs.len(),
        forall|j: int| 0 <= j < i ==> #[trigger] plugin_creation_error(configs[j], facts[j].0, facts[j].1) is None,
    ensures
        i == configs.len() ==> registry_error(configs, facts) is None,
        i < configs.len() ==> match plugin_creation_error(configs[i], facts[i].0, facts[i].1) {
            Some(m) => registry_error(configs, facts) == Some(
                "Failed to create plugin "@ + dec(i as nat) + ": "@ + ("Plugin configuration error: "@ + m),
            ),
            None => true,
        },
{
    lemma_registry_skips_good(configs, facts, 0, i);
}


/// A plugin built from a configuration with an exact pattern answers exactly the requests for
/// that path; without process or host filters it answers them whatever the client process and
/// the headers, and with the configured status code.
pub proof fn lemma_exact_plugin_answers_its_path(
    p: Plugin,
    c: PluginConfig,
    path: Seq<char>,
    info: Option<ProcessInfo>,
    headers: Seq<(Seq<char>, Seq<char>)>,
)
    requires
        plugin_of(p, c),
        c.pattern_type is Exact,
    ensures
        p.spec_matches(path) <==> path == c.pattern@,
        !has_process_filters_config(c) ==> p.spec_matches_process_aware(info, headers),
        match responder_of(p) {
            Plugin::File(f) => f.status_code == c.status_code,
            Plugin::Command(cp) => cp.status_code == c.status_code,
            Plugin::ProcessAware(_) => false,
        },
{
    match p {
        Plugin::ProcessAware(pa) => {
            assert(base_plugin_of(*pa.delegate, c));
            assert(responder_of(p) == responder_of(*pa.delegate));
            assert(responder_of(*pa.delegate) == *pa.delegate);
        },
        _ => {},
    }
}

} // verus!
