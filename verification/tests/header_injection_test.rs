use mefirst::config::{Config, PatternType, PluginConfig, ResponseSource};
use mefirst::plugin::PluginFactory;
use mefirst::process::ProcessInfo;
use mefirst::proxy::handler::upstream_request_headers;
use std::io::Write;
use tempfile::NamedTempFile;

// Helper function to create test process info
fn create_test_process_info() -> ProcessInfo {
    ProcessInfo {
        uid: 1000,
        username: "testuser".to_string(),
        pid: 12345,
        executable: "/usr/bin/curl".to_string(),
        cmdline: "curl http://example.com".to_string(),
    }
}

// The configuration that `--inject-process-headers true` gives.
fn injecting_config() -> Config {
    let mut config = Config::default();
    config.inject_process_headers = true;
    config
}

fn command_config(command: &str, args: &[&str], stdin: Option<bool>) -> PluginConfig {
    PluginConfig {
        pattern: "/test".to_string(),
        pattern_type: PatternType::Exact,
        response_source: ResponseSource::Command {
            command: command.to_string(),
            args: args.iter().map(|a| a.to_string()).collect(),
        },
        status_code: 200,
        timeout_secs: Some(5),
        uid: None,
        username: None,
        executable_pattern: None,
        cmdline_pattern: None,
        host_pattern: None,
        proxy_request_stdin: stdin,
    }
}

#[test]
fn test_global_header_injection_with_metadata() {
    let config = injecting_config();
    assert_eq!(config.inject_process_headers, true);

    // Verify process info structure
    let process_info = create_test_process_info();
    assert_eq!(process_info.uid, 1000);
    assert_eq!(process_info.username, "testuser");
    assert_eq!(process_info.pid, 12345);
    assert_eq!(process_info.executable, "/usr/bin/curl");
    assert_eq!(process_info.cmdline, "curl http://example.com");

    let headers = upstream_request_headers(Vec::new(), config.inject_process_headers, Some(&process_info));
    assert_eq!(headers.len(), 5);
    assert_eq!(headers[4], ("X-Forwarded-Process-Args".to_string(), "curl http://example.com".to_string()));
}

#[test]
fn test_global_header_injection_disabled() {
    let config = Config::default();
    assert_eq!(config.inject_process_headers, false);
    let process_info = create_test_process_info();
    let headers = upstream_request_headers(Vec::new(), config.inject_process_headers, Some(&process_info));
    assert!(headers.is_empty());
}

#[test]
fn test_global_header_injection_without_metadata() {
    let config = injecting_config();
    assert_eq!(config.inject_process_headers, true);

    // When metadata is None, the proxy continues without injecting headers
    let metadata: Option<ProcessInfo> = None;
    assert!(metadata.is_none());
    let headers = upstream_request_headers(Vec::new(), config.inject_process_headers, metadata.as_ref());
    assert!(headers.is_empty());
}

#[test]
fn test_all_five_headers_structure() {
    let process_info = create_test_process_info();

    // Verify all five fields that should be injected as headers
    assert!(process_info.uid > 0);
    assert!(!process_info.username.is_empty());
    assert!(process_info.pid > 0);
    assert!(!process_info.executable.is_empty());
    assert!(!process_info.cmdline.is_empty());

    let names: Vec<String> = process_info.forwarded_headers().into_iter().map(|(k, _)| k).collect();
    assert_eq!(
        names,
        vec![
            "X-Forwarded-Uid",
            "X-Forwarded-Username",
            "X-Forwarded-Pid",
            "X-Forwarded-Process-Name",
            "X-Forwarded-Process-Args"
        ]
    );
}

#[test]
fn test_global_injection_independent_of_plugins() {
    let config = injecting_config();

    // Create an empty plugin registry (no plugins configured)
    let configs: Vec<PluginConfig> = vec![];
    let registry = PluginFactory::create_registry(&configs).unwrap();

    assert_eq!(registry.len(), 0);
    assert_eq!(config.inject_process_headers, true);
}

#[test]
fn test_global_injection_independent_of_proxy_request_stdin() {
    let mut temp_file = NamedTempFile::new().unwrap();
    temp_file.write_all(b"test response").unwrap();

    let config_with_stdin = command_config("echo", &["test"], Some(true));
    let mut config_without_stdin = command_config("echo", &["test"], None);
    config_without_stdin.pattern = "/other".to_string();
    config_without_stdin.response_source =
        ResponseSource::File { path: temp_file.path().to_str().unwrap().to_string() };
    config_without_stdin.timeout_secs = None;

    // Both should be valid regardless of inject_process_headers setting
    assert!(config_with_stdin.validate().is_ok());
    assert!(config_without_stdin.validate().is_ok());
}

#[test]
fn test_proxy_request_stdin_with_metadata() {
    let config = command_config("cat", &[], Some(true));
    assert_eq!(config.proxy_request_stdin, Some(true));

    let process_info = create_test_process_info();
    assert_eq!(process_info.uid, 1000);
    assert_eq!(process_info.username, "testuser");
    assert_eq!(process_info.pid, 12345);
    assert_eq!(process_info.executable, "/usr/bin/curl");
    assert_eq!(process_info.cmdline, "curl http://example.com");
}

#[test]
fn test_proxy_request_stdin_without_metadata() {
    let config = command_config("cat", &[], Some(true));
    assert_eq!(config.proxy_request_stdin, Some(true));

    let metadata: Option<ProcessInfo> = None;
    assert!(metadata.is_none());
}

#[test]
fn test_proxy_request_stdin_disabled() {
    let config = command_config("echo", &["test"], Some(false));
    assert_eq!(config.proxy_request_stdin, Some(false));
}

#[test]
fn test_proxy_request_stdin_validation() {
    let mut temp_file = NamedTempFile::new().unwrap();
    temp_file.write_all(b"test").unwrap();

    let mut invalid_config = command_config("cat", &[], Some(true));
    invalid_config.response_source = ResponseSource::File { path: temp_file.path().to_str().unwrap().to_string() };
    invalid_config.timeout_secs = None;

    // This should fail validation
    let result = invalid_config.validate();
    assert!(result.is_err());
    assert!(result.unwrap_err().message().contains("proxy_request_stdin"));
}
