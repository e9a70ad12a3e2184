//! Configuration: command-line values merged with a configuration file, and its validation.
use vstd::prelude::*;
use vstd::string::*;
use crate::error::InterposerError;
use crate::paths::{debug_quoted, debug_text, extension_of, path_exists, path_extension};
use crate::text::{dec, decimal_string, eq_str};

verus! {

/// How a pattern is matched.
#[derive(Debug, Clone, Copy, PartialEq, Eq, Structural)]
pub enum PatternType {
    Exact,
    Glob,
    Regex,
}

/// Where a plugin's response comes from.
#[derive(Debug, Clone)]
pub enum ResponseSource {
    File { path: String },
    Command { command: String, args: Vec<String> },
}

/// One interception plugin as configured.
#[derive(Debug, Clone)]
pub struct PluginConfig {
    pub pattern: String,
    pub pattern_type: PatternType,
    pub response_source: ResponseSource,
    pub status_code: u16,
    pub timeout_secs: Option<u64>,
    // Process-aware routing fields
    pub uid: Option<u32>,
    pub username: Option<String>,
    pub executable_pattern: Option<PatternConfig>,
    pub cmdline_pattern: Option<PatternConfig>,
    pub host_pattern: Option<PatternConfig>,
    // Proxy request stdin feature
    pub proxy_request_stdin: Option<bool>,
}

/// A pattern and how to match it.
#[derive(Debug, Clone)]
pub struct PatternConfig {
    pub pattern: String,
    pub pattern_type: PatternType,
}

/// Which connections are intercepted: `ip` absent means every address on `port`.
#[derive(Debug, Clone)]
pub struct ConnectionInterceptionConfig {
    pub ip: Option<String>,
    pub port: u16,
}

impl Default for ConnectionInterceptionConfig {
    fn default() -> (r: Self)
        ensures
            r.ip matches Some(ip) && ip@ == default_target_address_text(),
            r.port == 80,
    {
        ConnectionInterceptionConfig { ip: Some(default_target_address()), port: 80 }
    }
}

/// Configuration file structure (for TOML/YAML loading)
#[derive(Debug, Clone)]
pub struct ConfigFile {
    pub cgroup_path: String,
    pub plugins: Vec<PluginConfig>,
    // New interception config (preferred)
    pub interception: Option<ConnectionInterceptionConfig>,
    // Legacy fields for backward compatibility
    pub target_address: String,
    pub target_port: u16,
    pub bind_port: u16,
    pub enable_metrics: bool,
    pub metrics_port: u16,
    pub inject_process_headers: bool,
}

pub open spec fn default_cgroup_path_text() -> Seq<char> {
    "/sys/fs/cgroup"@
}

pub open spec fn default_target_address_text() -> Seq<char> {
    "169.254.169.254"@
}

pub open spec fn any_address_text() -> Seq<char> {
    "0.0.0.0"@
}

/// Default HTTP status of a plugin response.
pub fn default_status_code() -> (r: u16)
    ensures
        r == 200,
{
    200
}

/// Default cgroup for eBPF attachment.
pub fn default_cgroup_path() -> (r: String)
    ensures
        r@ == default_cgroup_path_text(),
{
    String::from_str("/sys/fs/cgroup")
}

/// Default address whose connections are intercepted.
pub fn default_target_address() -> (r: String)
    ensures
        r@ == default_target_address_text(),
{
    String::from_str("169.254.169.254")
}

/// Default port whose connections are intercepted.
pub fn default_target_port() -> (r: u16)
    ensures
        r == 80,
{
    80
}

/// Default port the proxy listens on.
pub fn default_bind_port() -> (r: u16)
    ensures
        r == 8080,
{
    8080
}

/// Metrics are on by default.
pub fn default_enable_metrics() -> (r: bool)
    ensures
        r == true,
{
    true
}

/// Default metrics port.
pub fn default_metrics_port() -> (r: u16)
    ensures
        r == 9090,
{
    9090
}

/// Which settings were given explicitly, on the command line or in the environment, rather
/// than left at their defaults. An explicit setting wins over the configuration file.
#[derive(Debug, Clone, Copy, PartialEq, Eq, Structural)]
pub struct ExplicitSettings {
    pub cgroup_path: bool,
    pub target_address: bool,
    pub target_port: bool,
    pub bind_port: bool,
    pub enable_metrics: bool,
    pub metrics_port: bool,
    pub inject_process_headers: bool,
}

/// No setting given explicitly.
pub open spec fn no_explicit_settings() -> ExplicitSettings {
    ExplicitSettings {
        cgroup_path: false,
        target_address: false,
        target_port: false,
        bind_port: false,
        enable_metrics: false,
        metrics_port: false,
        inject_process_headers: false,
    }
}

impl Default for ExplicitSettings {
    /// No setting given explicitly.
    fn default() -> (r: Self)
        ensures
            r == no_explicit_settings(),
    {
        ExplicitSettings {
            cgroup_path: false,
            target_address: false,
            target_port: false,
            bind_port: false,
            enable_metrics: false,
            metrics_port: false,
            inject_process_headers: false,
        }
    }
}

/// The proxy's configuration.
#[derive(Debug, Clone)]
pub struct Config {
    /// Configuration file path (TOML or YAML)
    pub config_file: Option<String>,
    /// Cgroup path for eBPF attachment
    pub cgroup_path: String,
    /// Target address to intercept
    pub target_address: String,
    /// Target port to intercept
    pub target_port: u16,
    /// Bind port for proxy (always binds to localhost: 127.0.0.1 and ::1)
    pub bind_port: u16,
    /// Enable metrics endpoint
    pub enable_metrics: bool,
    /// Metrics port
    pub metrics_port: u16,
    /// Forward the client's process metadata to the upstream as headers
    pub inject_process_headers: bool,
    /// Interception plugins (loaded from config file)
    pub plugins: Vec<PluginConfig>,
    /// Which of the settings above were given explicitly
    pub explicit: ExplicitSettings,
}

impl Default for Config {
    fn default() -> (r: Self)
        ensures
            r.config_file is None,
            r.cgroup_path@ == default_cgroup_path_text(),
            r.target_address@ == default_target_address_text(),
            r.target_port == 80,
            r.bind_port == 8080,
            r.enable_metrics == true,
            r.metrics_port == 9090,
            r.inject_process_headers == false,
            r.plugins@.len() == 0,
            r.explicit == no_explicit_settings(),
    {
        Config {
            config_file: None,
            cgroup_path: default_cgroup_path(),
            target_address: default_target_address(),
            target_port: 80,
            bind_port: 8080,
            enable_metrics: true,
            metrics_port: 9090,
            inject_process_headers: false,
            plugins: Vec::new(),
            explicit: ExplicitSettings::default(),
        }
    }
}

/// The target address after merging: an explicit command-line address wins; otherwise the
/// file's interception section decides (no `ip` there meaning every address, `0.0.0.0`), and
/// without one the file's legacy `target_address`.
pub open spec fn merged_target_address(cli: Config, file: ConfigFile) -> Seq<char> {
    if cli.explicit.target_address {
        cli.target_address@
    } else {
        match file.interception {
            Some(i) => match i.ip {
                Some(ip) => ip@,
                None => any_address_text(),
            },
            None => file.target_address@,
        }
    }
}

/// The target port after merging, by the same precedence as the address.
pub open spec fn merged_target_port(cli: Config, file: ConfigFile) -> u16 {
    if cli.explicit.target_port {
        cli.target_port
    } else {
        match file.interception {
            Some(i) => i.port,
            None => file.target_port,
        }
    }
}

/// Message of the first plugin, from `k` on, that static validation rejects; `exists[i]` tells
/// whether plugin `i`'s response file exists.
pub open spec fn config_validation_from(plugins: Seq<PluginConfig>, exists: Seq<bool>, k: int) -> Option<Seq<char>>
    decreases plugins.len() - k,
{
    if k < 0 || k >= plugins.len() {
        None
    } else if plugins[k].pattern@.len() == 0 {
        Some("Plugin "@ + dec(k as nat) + " has empty pattern"@)
    } else {
        match plugins[k].response_source {
            ResponseSource::File { path } => if !exists[k] {
                Some("Plugin "@ + dec(k as nat) + " response file does not exist: "@ + debug_text(path@))
            } else {
                config_validation_from(plugins, exists, k + 1)
            },
            ResponseSource::Command { command, .. } => if command@.len() == 0 {
                Some("Plugin "@ + dec(k as nat) + " has empty command"@)
            } else {
                config_validation_from(plugins, exists, k + 1)
            },
        }
    }
}

/// Message of the first invalid plugin, if any.
pub open spec fn config_validation(plugins: Seq<PluginConfig>, exists: Seq<bool>) -> Option<Seq<char>> {
    config_validation_from(plugins, exists, 0)
}

/// The outcome of a validation as the message of a configuration error, if any.
pub open spec fn config_error_text(r: std::result::Result<(), InterposerError>) -> Option<Seq<char>> {
    match r {
        Ok(_) => None,
        Err(InterposerError::Config(m)) => Some(m@),
        Err(_) => Some(Seq::<char>::empty()),
    }
}

fn plugin_message(idx: usize, tail: &str) -> (r: String)
    ensures
        r@ == "Plugin "@ + dec(idx as nat) + tail@,
{
    let mut m = String::from_str("Plugin ");
    let n = decimal_string(idx as u64);
    m.append(n.as_str());
    m.append(tail);
    m
}

/// Whether `c` is what merging configuration file `file` into command-line configuration
/// `cli` gives: a setting given explicitly on the command line (or in the environment) wins;
/// any other setting takes the file's value (which is the default where the file names none);
/// the plugins come from the file.
pub open spec fn merged_from_file(c: Config, cli: Config, file: ConfigFile) -> bool {
    &&& c.config_file == cli.config_file
    &&& c.explicit == cli.explicit
    &&& c.cgroup_path == (if cli.explicit.cgroup_path {
        cli.cgroup_path
    } else {
        file.cgroup_path
    })
    &&& c.plugins == file.plugins
    &&& c.target_address@ == merged_target_address(cli, file)
    &&& c.target_port == merged_target_port(cli, file)
    &&& c.bind_port == (if cli.explicit.bind_port {
        cli.bind_port
    } else {
        file.bind_port
    })
    &&& c.enable_metrics == (if cli.explicit.enable_metrics {
        cli.enable_metrics
    } else {
        file.enable_metrics
    })
    &&& c.metrics_port == (if cli.explicit.metrics_port {
        cli.metrics_port
    } else {
        file.metrics_port
    })
    &&& c.inject_process_headers == (if cli.explicit.inject_process_headers {
        cli.inject_process_headers
    } else {
        file.inject_process_headers
    })
}

/// The plugins of the configuration that command-line values and an optional file give.
pub open spec fn loaded_plugins(cli: Config, file: Option<ConfigFile>) -> Seq<PluginConfig> {
    match file {
        Some(f) => f.plugins@,
        None => cli.plugins@,
    }
}

/// A setting given explicitly on the command line (or in the environment) survives merging
/// any configuration file, even where it equals the default.
pub proof fn lemma_command_line_wins(c: Config, cli: Config, file: ConfigFile)
    requires
        merged_from_file(c, cli, file),
    ensures
        cli.explicit.bind_port ==> c.bind_port == cli.bind_port,
        cli.explicit.metrics_port ==> c.metrics_port == cli.metrics_port,
        cli.explicit.target_port ==> c.target_port == cli.target_port,
        cli.explicit.target_address ==> c.target_address@ == cli.target_address@,
        cli.explicit.cgroup_path ==> c.cgroup_path == cli.cgroup_path,
        cli.explicit.enable_metrics ==> c.enable_metrics == cli.enable_metrics,
        cli.explicit.inject_process_headers ==> c.inject_process_headers == cli.inject_process_headers,
{
}

/// A setting not given explicitly comes from the file: the file ranks above the defaults.
pub proof fn lemma_file_wins_over_defaults(c: Config, cli: Config, file: ConfigFile)
    requires
        merged_from_file(c, cli, file),
    ensures
        !cli.explicit.bind_port ==> c.bind_port == file.bind_port,
        !cli.explicit.metrics_port ==> c.metrics_port == file.metrics_port,
        !cli.explicit.cgroup_path ==> c.cgroup_path == file.cgroup_path,
        !cli.explicit.enable_metrics ==> c.enable_metrics == file.enable_metrics,
        !cli.explicit.inject_process_headers ==> c.inject_process_headers == file.inject_process_headers,
        !cli.explicit.target_port && file.interception is None ==> c.target_port == file.target_port,
        !cli.explicit.target_address && file.interception is None ==> c.target_address@
            == file.target_address@,
{
}

/// Where the target is not given explicitly and the file has an interception section, that
/// section decides the target, whatever the file's legacy `target_address` and `target_port`
/// say: its `ip` when it names one, every address (`0.0.0.0`) when it does not, and its port.
pub proof fn lemma_interception_section_decides_target(c: Config, cli: Config, file: ConfigFile)
    requires
        merged_from_file(c, cli, file),
        file.interception is Some,
    ensures
        !cli.explicit.target_address ==> match file.interception->0.ip {
            Some(ip) => c.target_address@ == ip@,
            None => c.target_address@ == "0.0.0.0"@,
        },
        !cli.explicit.target_port ==> c.target_port == file.interception->0.port,
{
}

/// Whether plugin `p` passes static validation, `exists` telling whether its response file
/// exists: a non-empty pattern, and an existing response file or a non-empty command.
pub open spec fn plugin_statically_valid(p: PluginConfig, exists: bool) -> bool {
    &&& p.pattern@.len() > 0
    &&& match p.response_source {
        ResponseSource::File { .. } => exists,
        ResponseSource::Command { command, .. } => command@.len() > 0,
    }
}

proof fn lemma_validation_skips_valid(plugins: Seq<PluginConfig>, exists: Seq<bool>, k: int, m: int)
    requires
        0 <= k <= m <= plugins.len(),
        exists.len() == plugins.len(),
        forall|j: int| k <= j < m ==> plugin_statically_valid(#[trigger] plugins[j], exists[j]),
    ensures
        config_validation_from(plugins, exists, k) == config_validation_from(plugins, exists, m),
    decreases m - k,
{
    if k < m {
        assert(plugin_statically_valid(plugins[k], exists[k]));
        lemma_validation_skips_valid(plugins, exists, k + 1, m);
    }
}

/// Validation looks at every plugin in turn: the configuration is valid exactly when every
/// plugin is, and otherwise the first invalid plugin, at whatever position, is reported, a
/// missing response file by the plugin's index and path.
pub proof fn lemma_validation_reports_first_invalid(plugins: Seq<PluginConfig>, exists: Seq<bool>, i: int)
    requires
        exists.len() == plugins.len(),
        0 <= i <= plugins.len(),
        forall|j: int| 0 <= j < i ==> plugin_statically_valid(#[trigger] plugins[j], exists[j]),
    ensures
        i == plugins.len() ==> config_validation(plugins, exists) is None,
        i < plugins.len() && plugins[i].pattern@.len() > 0 ==> match plugins[i].response_source {
            ResponseSource::File { path } => !exists[i] ==> config_validation(plugins, exists) == Some(
                "Plugin "@ + dec(i as nat) + " response file does not exist: "@ + debug_text(path@),
            ),
            ResponseSource::Command { command, .. } => command@.len() == 0 ==> config_validation(
                plugins,
                exists,
            ) == Some("Plugin "@ + dec(i as nat) + " has empty command"@),
        },
        i < plugins.len() && plugins[i].pattern@.len() == 0 ==> config_validation(plugins, exists)
            == Some("Plugin "@ + dec(i as nat) + " has empty pattern"@),
{
    lemma_validation_skips_valid(plugins, exists, 0, i);
}

/// The format a configuration file is read in.
#[derive(Debug, Clone, Copy, PartialEq, Eq, Structural)]
pub enum ConfigFormat {
    Toml,
    Yaml,
}

/// The format of the configuration file at `path`: YAML for the extensions `yaml` and `yml`,
/// TOML otherwise.
pub open spec fn config_format_of(path: Seq<char>) -> ConfigFormat {
    if extension_of(path) == Some("yaml"@) || extension_of(path) == Some("yml"@) {
        ConfigFormat::Yaml
    } else {
        ConfigFormat::Toml
    }
}

/// The format of the configuration file at `path`.
pub fn config_file_format(path: &str) -> (r: ConfigFormat)
    ensures
        r == config_format_of(path@),
{
    match path_extension(path) {
        Some(e) => {
            if eq_str(e.as_str(), "yaml") || eq_str(e.as_str(), "yml") {
                ConfigFormat::Yaml
            } else {
                ConfigFormat::Toml
            }
        },
        None => ConfigFormat::Toml,
    }
}

/// The error for a configuration file that could not be read; `detail` is the reason.
pub fn config_read_error(detail: &str) -> (r: InterposerError)
    ensures
        r matches InterposerError::Config(m) && m@ == "Failed to read config file: "@ + detail@,
{
    let mut m = String::from_str("Failed to read config file: ");
    m.append(detail);
    InterposerError::Config(m)
}

/// The error for a configuration file that does not parse in its format; `detail` is the
/// parser's reason.
pub fn config_parse_error(format: ConfigFormat, detail: &str) -> (r: InterposerError)
    ensures
        r matches InterposerError::Config(m) && m@ == match format {
            ConfigFormat::Yaml => "Failed to parse YAML config: "@,
            ConfigFormat::Toml => "Failed to parse TOML config: "@,
        } + detail@,
{
    let mut m = match format {
        ConfigFormat::Yaml => String::from_str("Failed to parse YAML config: "),
        ConfigFormat::Toml => String::from_str("Failed to parse TOML config: "),
    };
    m.append(detail);
    InterposerError::Config(m)
}

impl Config {
    /// Merge file configuration into command-line configuration: settings given explicitly on
    /// the command line (or in the environment) win, the others take the file's values; plugins
    /// always come from the file.
    pub fn merge_from_file(&mut self, file_config: ConfigFile)
        ensures
            merged_from_file(*final(self), *old(self), file_config),
    {
        let explicit = self.explicit;
        if !explicit.cgroup_path {
            self.cgroup_path = file_config.cgroup_path;
        }
        self.plugins = file_config.plugins;
        match file_config.interception {
            Some(interception) => {
                if !explicit.target_address {
                    self.target_address = match interception.ip {
                        Some(ip) => ip,
                        None => String::from_str("0.0.0.0"),
                    };
                }
                if !explicit.target_port {
                    self.target_port = interception.port;
                }
            },
            None => {
                if !explicit.target_address {
                    self.target_address = file_config.target_address;
                }
                if !explicit.target_port {
                    self.target_port = file_config.target_port;
                }
            },
        }
        if !explicit.bind_port {
            self.bind_port = file_config.bind_port;
        }
        if !explicit.enable_metrics {
            self.enable_metrics = file_config.enable_metrics;
        }
        if !explicit.metrics_port {
            self.metrics_port = file_config.metrics_port;
        }
        if !explicit.inject_process_headers {
            self.inject_process_headers = file_config.inject_process_headers;
        }
    }

    /// Validates the plugins given whether each plugin's response file exists (`exists[i]` for
    /// plugin `i`): the first plugin with an empty pattern, a missing response file or an empty
    /// command makes the configuration invalid.
    pub fn validate_with(&self, exists: &Vec<bool>) -> (r: std::result::Result<(), InterposerError>)
        requires
            exists@.len() == self.plugins@.len(),
        ensures
            r is Ok || r matches Err(InterposerError::Config(_)),
            config_error_text(r) == config_validation(self.plugins@, exists@),
    {
        let n = self.plugins.len();
        let mut idx: usize = 0;
        while idx < n
            invariant
                idx <= n,
                n == self.plugins@.len(),
                exists@.len() == n,
                config_validation(self.plugins@, exists@) == config_validation_from(self.plugins@, exists@, idx as int),
            decreases n - idx,
        {
            let plugin = &self.plugins[idx];
            if plugin.pattern.as_str().is_empty() {
                return Err(InterposerError::Config(plugin_message(idx, " has empty pattern")));
            }
            match &plugin.response_source {
                ResponseSource::File { path } => {
                    if !exists[idx] {
                        let mut m = plugin_message(idx, " response file does not exist: ");
                        let d = debug_quoted(path.as_str());
                        m.append(d.as_str());
                        return Err(InterposerError::Config(m));
                    }
                },
                ResponseSource::Command { command, .. } => {
                    if command.as_str().is_empty() {
                        return Err(InterposerError::Config(plugin_message(idx, " has empty command")));
                    }
                },
            }
            idx = idx + 1;
        }
        Ok(())
    }

    /// Validates the plugins, asking the file system whether each response file exists.
    pub fn validate(&self) -> (r: std::result::Result<(), InterposerError>)
        ensures
            r is Ok || r matches Err(InterposerError::Config(_)),
            exists|exists: Seq<bool>| exists.len() == self.plugins@.len()
                && #[trigger] config_validation(self.plugins@, exists) == config_error_text(r),
    {
        let n = self.plugins.len();
        let mut facts: Vec<bool> = Vec::new();
        let mut i: usize = 0;
        while i < n
            invariant
                i <= n,
                n == self.plugins@.len(),
                facts@.len() == i,
            decreases n - i,
        {
            let e = match &self.plugins[i].response_source {
                ResponseSource::File { path } => path_exists(path.as_str()),
                ResponseSource::Command { .. } => true,
            };
            facts.push(e);
            i = i + 1;
        }
        let r = self.validate_with(&facts);
        assert(config_validation(self.plugins@, facts@) == config_error_text(r));
        r
    }

    /// The configuration that results from command-line values `cli` and an optional
    /// configuration file, validated.
    pub fn load(cli: Config, file_config: Option<ConfigFile>) -> (r: std::result::Result<Config, InterposerError>)
        ensures
            exists|exists: Seq<bool>| exists.len() == loaded_plugins(cli, file_config).len()
                && #[trigger] config_validation(loaded_plugins(cli, file_config), exists)
                == match r {
                Ok(_) => None,
                Err(InterposerError::Config(m)) => Some(m@),
                Err(_) => Some(Seq::<char>::empty()),
            },
            r matches Ok(c) ==> match file_config {
                None => c == cli,
                Some(f) => merged_from_file(c, cli, f),
            },
            r matches Err(e) ==> e is Config,
    {
        let mut config = cli;
        match file_config {
            Some(f) => config.merge_from_file(f),
            None => {},
        }
        assert(config.plugins@ == loaded_plugins(cli, file_config));
        let v = config.validate();
        let ghost facts = choose|exists: Seq<bool>| exists.len() == config.plugins@.len()
            && #[trigger] config_validation(config.plugins@, exists) == config_error_text(v);
        let r = match v {
            Ok(()) => Ok(config),
            Err(e) => Err(e),
        };
        assert(config_validation(loaded_plugins(cli, file_config), facts) == match r {
            Ok(_) => None,
            Err(InterposerError::Config(m)) => Some(m@),
            Err(_) => Some(Seq::<char>::empty()),
        });
        r
    }
}

} // verus!
