//! The error type of the proxy.
use vstd::prelude::*;
use vstd::string::*;

verus! {

/// Main error type. Errors that come from outside libraries (HTTP client, serialisers, I/O)
/// carry the text that those libraries render for them.
#[derive(Debug)]
pub enum InterposerError {
    Config(String),
    InvalidConfig { field: String, reason: String },
    MissingConfig(String),
    Upstream(String),
    AuthValidation(String),
    UpstreamRequest(String),
    UpstreamResponseParse(String),
    Plugin(String),
    PluginConfig(String),
    PatternMatch(String),
    CommandExecution(String),
    CommandTimeout,
    Ebpf(String),
    EbpfLoad(String),
    EbpfAttach(String),
    EbpfNotSupported(String),
    CgroupNotFound(String),
    Http(String),
    HttpServer(String),
    Timeout,
    Connection(String),
    Json(String),
    Yaml(String),
    Toml(String),
    Io(String),
    FileNotFound(String),
    InvalidPath(String),
    RequestFiltered(String),
    RateLimitExceeded,
    ShutdownTimeout,
    ServiceUnavailable(String),
    Internal(String),
    Other(String),
}

/// Convenient Result type alias.
pub type Result<T> = std::result::Result<T, InterposerError>;

/// The text shown for an error.
pub open spec fn error_message(e: InterposerError) -> Seq<char> {
    match e {
        InterposerError::Config(s) => "Configuration error: "@ + s@,
        InterposerError::InvalidConfig { field, reason } => "Invalid configuration value for "@ + field@
            + ": "@ + reason@,
        InterposerError::MissingConfig(s) => "Missing required configuration: "@ + s@,
        InterposerError::Upstream(s) => "Upstream client error: "@ + s@,
        InterposerError::AuthValidation(s) => "Authentication validation failed: "@ + s@,
        InterposerError::UpstreamRequest(s) => "Upstream request failed: "@ + s@,
        InterposerError::UpstreamResponseParse(s) => "Upstream response parse error: "@ + s@,
        InterposerError::Plugin(s) => "Plugin error: "@ + s@,
        InterposerError::PluginConfig(s) => "Plugin configuration error: "@ + s@,
        InterposerError::PatternMatch(s) => "Pattern matching error: "@ + s@,
        InterposerError::CommandExecution(s) => "Command execution error: "@ + s@,
        InterposerError::CommandTimeout => "Command timeout exceeded"@,
        InterposerError::Ebpf(s) => "eBPF error: "@ + s@,
        InterposerError::EbpfLoad(s) => "eBPF program load failed: "@ + s@,
        InterposerError::EbpfAttach(s) => "eBPF program attach failed: "@ + s@,
        InterposerError::EbpfNotSupported(s) => "eBPF not supported on this system: "@ + s@,
        InterposerError::CgroupNotFound(s) => "Cgroup not found: "@ + s@,
        InterposerError::Http(s) => "HTTP request error: "@ + s@,
        InterposerError::HttpServer(s) => "HTTP server error: "@ + s@,
        InterposerError::Timeout => "Request timeout"@,
        InterposerError::Connection(s) => "Connection failed: "@ + s@,
        InterposerError::Json(s) => "JSON serialization error: "@ + s@,
        InterposerError::Yaml(s) => "YAML serialization error: "@ + s@,
        InterposerError::Toml(s) => "TOML serialization error: "@ + s@,
        InterposerError::Io(s) => "IO error: "@ + s@,
        InterposerError::FileNotFound(s) => "File not found: "@ + s@,
        InterposerError::InvalidPath(s) => "Invalid request path: "@ + s@,
        InterposerError::RequestFiltered(s) => "Request filtered: "@ + s@,
        InterposerError::RateLimitExceeded => "Rate limit exceeded"@,
        InterposerError::ShutdownTimeout => "Shutdown timeout exceeded"@,
        InterposerError::ServiceUnavailable(s) => "Service unavailable: "@ + s@,
        InterposerError::Internal(s) => "Internal error: "@ + s@,
        InterposerError::Other(s) => s@,
    }
}

fn prefixed(prefix: &str, s: &String) -> (r: String)
    ensures
        r@ == prefix@ + s@,
{
    let mut r = String::from_str(prefix);
    r.append(s.as_str());
    r
}

impl InterposerError {
    /// The text shown for this error.
    pub fn message(&self) -> (r: String)
        ensures
            r@ == error_message(*self),
    {
        match self {
            InterposerError::Config(s) => prefixed("Configuration error: ", s),
            InterposerError::InvalidConfig { field, reason } => {
                let mut r = prefixed("Invalid configuration value for ", field);
                r.append(": ");
                r.append(reason.as_str());
                r
            },
            InterposerError::MissingConfig(s) => prefixed("Missing required configuration: ", s),
            InterposerError::Upstream(s) => prefixed("Upstream client error: ", s),
            InterposerError::AuthValidation(s) => prefixed("Authentication validation failed: ", s),
            InterposerError::UpstreamRequest(s) => prefixed("Upstream request failed: ", s),
            InterposerError::UpstreamResponseParse(s) => prefixed("Upstream response parse error: ", s),
            InterposerError::Plugin(s) => prefixed("Plugin error: ", s),
            InterposerError::PluginConfig(s) => prefixed("Plugin configuration error: ", s),
            InterposerError::PatternMatch(s) => prefixed("Pattern matching error: ", s),
            InterposerError::CommandExecution(s) => prefixed("Command execution error: ", s),
            InterposerError::CommandTimeout => String::from_str("Command timeout exceeded"),
            InterposerError::Ebpf(s) => prefixed("eBPF error: ", s),
            InterposerError::EbpfLoad(s) => prefixed("eBPF program load failed: ", s),
            InterposerError::EbpfAttach(s) => prefixed("eBPF program attach failed: ", s),
            InterposerError::EbpfNotSupported(s) => prefixed("eBPF not supported on this system: ", s),
            InterposerError::CgroupNotFound(s) => prefixed("Cgroup not found: ", s),
            InterposerError::Http(s) => prefixed("HTTP request error: ", s),
            InterposerError::HttpServer(s) => prefixed("HTTP server error: ", s),
            InterposerError::Timeout => String::from_str("Request timeout"),
            InterposerError::Connection(s) => prefixed("Connection failed: ", s),
            InterposerError::Json(s) => prefixed("JSON serialization error: ", s),
            InterposerError::Yaml(s) => prefixed("YAML serialization error: ", s),
            InterposerError::Toml(s) => prefixed("TOML serialization error: ", s),
            InterposerError::Io(s) => prefixed("IO error: ", s),
            InterposerError::FileNotFound(s) => prefixed("File not found: ", s),
            InterposerError::InvalidPath(s) => prefixed("Invalid request path: ", s),
            InterposerError::RequestFiltered(s) => prefixed("Request filtered: ", s),
            InterposerError::RateLimitExceeded => String::from_str("Rate limit exceeded"),
            InterposerError::ShutdownTimeout => String::from_str("Shutdown timeout exceeded"),
            InterposerError::ServiceUnavailable(s) => prefixed("Service unavailable: ", s),
            InterposerError::Internal(s) => prefixed("Internal error: ", s),
            InterposerError::Other(s) => s.clone(),
        }
    }
}

} // verus!
